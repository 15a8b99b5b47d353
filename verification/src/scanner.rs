//! The opcode scanner: tallies the instructions of every function body of a
//! module by label.

use crate::decode::{decode_module, item_views, module_listing, DecodeError, Item, ItemView};
use crate::label::{instruction_label, label_of};
use crate::opcode::OpcodeVector;
use vstd::multiset::*;
use vstd::prelude::*;
use vstd::seq_lib::*;

verus! {

/// The labels of the instructions among `items`, in order.
pub open spec fn instruction_labels(items: Seq<ItemView>) -> Seq<Seq<char>>
    decreases items.len(),
{
    if items.len() == 0 {
        Seq::empty()
    } else {
        let before = instruction_labels(items.drop_last());
        match items.last() {
            ItemView::Instruction(text) => before.push(label_of(text)),
            _ => before,
        }
    }
}

/// The opcode vector of `items`: each label as often as an instruction among
/// `items` bears it.
pub open spec fn opcode_counts(items: Seq<ItemView>) -> Multiset<Seq<char>> {
    instruction_labels(items).to_multiset()
}

/// The counts of an opcode vector add up to the number of instructions it was
/// made from.
pub proof fn lemma_counts_add_up(items: Seq<ItemView>)
    ensures
        opcode_counts(items).len() == instruction_labels(items).len(),
        instruction_labels(items).len() <= items.len(),
    decreases items.len(),
{
    broadcast use group_to_multiset_ensures;

    if items.len() > 0 {
        lemma_counts_add_up(items.drop_last());
    }
}

/// Whether `result` is what a scan of the module `data` gives: the opcode
/// vector of all its instructions, or the first decoding failure.
pub open spec fn is_scan_of(data: Seq<u8>, result: Result<OpcodeVector, DecodeError>) -> bool {
    match result {
        Ok(vector) => {
            &&& module_listing(data).failure is None
            &&& vector.wf()
            &&& vector@ == opcode_counts(module_listing(data).items)
        },
        Err(error) => module_listing(data).failure == Some(error.message@),
    }
}

/// Two scans of the same module give the same mapping, or fail alike.
pub proof fn lemma_scan_is_repeatable(
    data: Seq<u8>,
    first: Result<OpcodeVector, DecodeError>,
    second: Result<OpcodeVector, DecodeError>,
)
    requires
        is_scan_of(data, first),
        is_scan_of(data, second),
    ensures
        first is Ok <==> second is Ok,
        first is Ok ==> first->Ok_0@ == second->Ok_0@,
        first is Ok ==> forall|label: Seq<char>|
            first->Ok_0@.count(label) == second->Ok_0@.count(label),
        first is Err ==> first->Err_0.message@ == second->Err_0.message@,
{
}

/// Tallies the instructions among `items` by label.
pub fn opcode_vector(items: &Vec<Item>) -> (vector: OpcodeVector)
    ensures
        vector.wf(),
        vector@ == opcode_counts(item_views(items@)),
        vector@.len() == instruction_labels(item_views(items@)).len(),
{
    broadcast use group_to_multiset_ensures;

    let ghost all = item_views(items@);
    let mut vector = OpcodeVector::new();
    let mut i: usize = 0;
    assert(all.take(0) =~= Seq::empty());
    while i < items.len()
        invariant
            i <= items@.len(),
            all == item_views(items@),
            vector.wf(),
            vector@ == opcode_counts(all.take(i as int)),
        decreases items@.len() - i,
    {
        proof {
            lemma_counts_add_up(all.take(i as int));
            assert(all.take(i + 1).drop_last() =~= all.take(i as int));
            assert(all.take(i + 1).last() == items@[i as int]@);
        }
        let ghost counted = instruction_labels(all.take(i as int));
        match &items[i] {
            Item::Instruction(text) => {
                vector.record(instruction_label(text.as_str()));
                proof {
                    to_multiset_build(counted, label_of(text@));
                }
                assert(instruction_labels(all.take(i + 1)) == counted.push(label_of(text@)));
            },
            _ => {
                assert(instruction_labels(all.take(i + 1)) == counted);
            },
        }
        i += 1;
    }
    proof {
        assert(all.take(i as int) =~= all);
        lemma_counts_add_up(all);
    }
    vector
}

/// Extracts the opcode vector of the module `data`: the tally, by label, of
/// the instructions of all its function bodies. A decoding failure anywhere
/// in the module fails the whole scan.
pub fn extract_opcode_features(data: &[u8]) -> (result: Result<OpcodeVector, DecodeError>)
    ensures
        is_scan_of(data@, result),
        result matches Ok(vector) ==> vector@.len() == instruction_labels(
            module_listing(data@).items,
        ).len(),
{
    let listing = decode_module(data);
    match listing.failure {
        Some(error) => Err(error),
        None => Ok(opcode_vector(&listing.items)),
    }
}

} // verus!
