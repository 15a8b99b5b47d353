//! The opcode vector: how often each instruction label occurs.

use vstd::multiset::*;
use vstd::prelude::*;

verus! {

/// One entry of an opcode vector: a label and the number of its occurrences.
pub struct OpcodeCount {
    pub label: String,
    pub count: usize,
}

/// The entries of a vector as pairs of label and count, in stored order.
pub open spec fn pairs(entries: Seq<OpcodeCount>) -> Seq<(Seq<char>, nat)> {
    entries.map_values(|entry: OpcodeCount| (entry.label@, entry.count as nat))
}

/// `listing` writes out `bag` label by label: each label that occurs appears
/// exactly once, next to the number of its occurrences.
pub open spec fn lists(listing: Seq<(Seq<char>, nat)>, bag: Multiset<Seq<char>>) -> bool {
    &&& forall|i: int|
        0 <= i < listing.len() ==> (#[trigger] listing[i]).1 > 0 && bag.count(listing[i].0)
            == listing[i].1
    &&& forall|i: int, j: int|
        0 <= i < j < listing.len() ==> (#[trigger] listing[i]).0 != (#[trigger] listing[j]).0
    &&& forall|label: Seq<char>| #[trigger]
        bag.count(label) > 0 ==> exists|i: int|
            0 <= i < listing.len() && (#[trigger] listing[i]).0 == label
}

/// A mapping from instruction label to occurrence count. Its view is the
/// multiset of the labels recorded so far.
pub struct OpcodeVector {
    entries: Vec<OpcodeCount>,
    total: usize,
    bag: Ghost<Multiset<Seq<char>>>,
}

impl View for OpcodeVector {
    type V = Multiset<Seq<char>>;

    closed spec fn view(&self) -> Multiset<Seq<char>> {
        self.bag@
    }
}

impl OpcodeVector {
    /// The entries in stored order.
    pub closed spec fn listing(&self) -> Seq<(Seq<char>, nat)> {
        pairs(self.entries@)
    }

    /// The entries agree with the multiset, and the total is its size.
    pub closed spec fn wf(&self) -> bool {
        &&& lists(pairs(self.entries@), self.bag@)
        &&& self.total == self.bag@.len()
    }

    /// The vector with no label recorded.
    pub fn new() -> (vector: OpcodeVector)
        ensures
            vector.wf(),
            vector@ == Multiset::<Seq<char>>::empty(),
    {
        broadcast use group_multiset_axioms;

        OpcodeVector { entries: Vec::new(), total: 0, bag: Ghost(Multiset::empty()) }
    }

    /// The position of `label` among the entries, if it has one.
    fn position(&self, label: &String) -> (found: Option<usize>)
        ensures
            match found {
                Some(i) => i < self.entries@.len() && self.entries@[i as int].label@ == label@,
                None => forall|i: int|
                    0 <= i < self.entries@.len() ==> (#[trigger] self.entries@[i]).label@
                        != label@,
            },
    {
        let mut i: usize = 0;
        while i < self.entries.len()
            invariant
                i <= self.entries@.len(),
                forall|j: int| 0 <= j < i ==> (#[trigger] self.entries@[j]).label@ != label@,
            decreases self.entries@.len() - i,
        {
            if self.entries[i].label == *label {
                return Some(i);
            }
            i += 1;
        }
        None
    }

    /// Counts one more occurrence of `label`.
    pub fn record(&mut self, label: String)
        requires
            old(self).wf(),
            old(self)@.len() < usize::MAX,
        ensures
            final(self).wf(),
            final(self)@ == old(self)@.insert(label@),
    {
        broadcast use group_multiset_axioms;

        let ghost before = pairs(self.entries@);
        let ghost bag = self.bag@;
        let ghost grown = bag.insert(label@);
        match self.position(&label) {
            Some(i) => {
                let count = self.entries[i].count;
                assert(before[i as int].1 == count);
                assert(bag.count(label@) == count);
                self.entries.set(i, OpcodeCount { label, count: count + 1 });
                proof {
                    let after = pairs(self.entries@);
                    assert(after =~= before.update(i as int, (label@, (count + 1) as nat)));
                    assert forall|l: Seq<char>| #[trigger] grown.count(l) > 0 implies exists|
                        j: int,
                    |
                        0 <= j < after.len() && (#[trigger] after[j]).0 == l by {
                        if l == label@ {
                            assert(after[i as int].0 == l);
                        } else {
                            assert(bag.count(l) > 0);
                            let j = choose|j: int|
                                0 <= j < before.len() && (#[trigger] before[j]).0 == l;
                            assert(after[j].0 == l);
                        }
                    }
                    assert forall|j: int| 0 <= j < after.len() implies (#[trigger] after[j]).1 > 0
                        && grown.count(after[j].0) == after[j].1 by {
                        if j != i {
                            assert(after[j] == before[j]);
                            assert(before[j].0 != before[i as int].0);
                        }
                    }
                    assert forall|j: int, k: int| 0 <= j < k < after.len() implies (
                    #[trigger] after[j]).0 != (#[trigger] after[k]).0 by {
                        assert(after[j].0 == before[j].0);
                        assert(after[k].0 == before[k].0);
                    }
                }
            },
            None => {
                assert(bag.count(label@) == 0) by {
                    if bag.count(label@) > 0 {
                        let j = choose|j: int|
                            0 <= j < before.len() && (#[trigger] before[j]).0 == label@;
                        assert(self.entries@[j].label@ == label@);
                    }
                }
                self.entries.push(OpcodeCount { label, count: 1 });
                proof {
                    let after = pairs(self.entries@);
                    assert(after =~= before.push((label@, 1nat)));
                    assert forall|l: Seq<char>| #[trigger] grown.count(l) > 0 implies exists|
                        j: int,
                    |
                        0 <= j < after.len() && (#[trigger] after[j]).0 == l by {
                        if l == label@ {
                            assert(after[before.len() as int].0 == l);
                        } else {
                            assert(bag.count(l) > 0);
                            let j = choose|j: int|
                                0 <= j < before.len() && (#[trigger] before[j]).0 == l;
                            assert(after[j].0 == l);
                        }
                    }
                    assert forall|j: int| 0 <= j < after.len() implies (#[trigger] after[j]).1 > 0
                        && grown.count(after[j].0) == after[j].1 by {
                        if j < before.len() {
                            assert(after[j] == before[j]);
                            assert(self.entries@[j].label@ == before[j].0);
                        }
                    }
                    assert forall|j: int, k: int| 0 <= j < k < after.len() implies (
                    #[trigger] after[j]).0 != (#[trigger] after[k]).0 by {
                        assert(after[j] == before[j]);
                        if k < before.len() {
                            assert(after[k] == before[k]);
                        } else {
                            assert(self.entries@[j].label@ == before[j].0);
                        }
                    }
                }
            },
        }
        self.total = self.total + 1;
        self.bag = Ghost(grown);
    }

    /// The number of occurrences recorded for `label`.
    pub fn count(&self, label: &String) -> (count: usize)
        requires
            self.wf(),
        ensures
            count == self@.count(label@),
    {
        let ghost listing = pairs(self.entries@);
        match self.position(label) {
            Some(i) => {
                assert(listing[i as int].0 == label@);
                self.entries[i].count
            },
            None => {
                assert(self.bag@.count(label@) == 0) by {
                    if self.bag@.count(label@) > 0 {
                        let j = choose|j: int|
                            0 <= j < listing.len() && (#[trigger] listing[j]).0 == label@;
                        assert(self.entries@[j].label@ == label@);
                    }
                }
                0
            },
        }
    }

    /// The number of occurrences recorded over all labels.
    pub fn total(&self) -> (total: usize)
        requires
            self.wf(),
        ensures
            total == self@.len(),
    {
        self.total
    }

    /// The entries: one for each label that occurs, with its count.
    pub fn entries(&self) -> (entries: &Vec<OpcodeCount>)
        requires
            self.wf(),
        ensures
            pairs(entries@) == self.listing(),
            lists(pairs(entries@), self@),
    {
        &self.entries
    }
}

} // verus!
