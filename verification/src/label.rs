//! Instruction labels: the kind of an instruction, without its immediates.

use vstd::prelude::*;

verus! {

/// Whether `c` can appear in the name of an instruction kind.
pub open spec fn is_kind_char(c: char) -> bool {
    ||| 'a' <= c <= 'z'
    ||| 'A' <= c <= 'Z'
    ||| '0' <= c <= '9'
    ||| c == '_'
}

/// The number of characters at the start of `text` that belong to the
/// instruction's kind.
pub open spec fn kind_length(text: Seq<char>) -> nat
    decreases text.len(),
{
    if text.len() > 0 && is_kind_char(text[0]) {
        1 + kind_length(text.drop_first())
    } else {
        0
    }
}

/// The label of an instruction whose rendering is `text`: its kind, which is
/// the longest run of name characters that `text` starts with.
pub open spec fn label_of(text: Seq<char>) -> Seq<char> {
    text.take(kind_length(text) as int)
}

/// `kind_length(text)` is the one position that ends the leading run of name
/// characters.
pub proof fn lemma_kind_length(text: Seq<char>, k: int)
    requires
        0 <= k <= text.len(),
        forall|i: int| 0 <= i < k ==> is_kind_char(#[trigger] text[i]),
        k < text.len() ==> !is_kind_char(text[k]),
    ensures
        kind_length(text) == k,
    decreases text.len(),
{
    if k > 0 {
        let rest = text.drop_first();
        assert forall|i: int| 0 <= i < k - 1 implies is_kind_char(#[trigger] rest[i]) by {
            assert(rest[i] == text[i + 1]);
        }
        lemma_kind_length(rest, k - 1);
    }
}

/// Computes `is_kind_char`.
pub fn kind_char(c: char) -> (b: bool)
    ensures
        b == is_kind_char(c),
{
    ('a' <= c && c <= 'z') || ('A' <= c && c <= 'Z') || ('0' <= c && c <= '9') || c == '_'
}

/// The label under which an instruction is counted. Two instructions of one
/// kind get the same label whatever their immediates are.
pub fn instruction_label(text: &str) -> (label: String)
    ensures
        label@ == label_of(text@),
{
    let n = text.unicode_len();
    let mut k: usize = 0;
    while k < n && kind_char(text.get_char(k))
        invariant
            n == text@.len(),
            k <= n,
            forall|i: int| 0 <= i < k ==> is_kind_char(#[trigger] text@[i]),
        decreases n - k,
    {
        k += 1;
    }
    proof {
        lemma_kind_length(text@, k as int);
    }
    text.substring_char(0, k).to_owned()
}

/// A label is made of name characters only, and is its own label.
pub proof fn lemma_label_is_stable(text: Seq<char>)
    ensures
        forall|i: int| 0 <= i < label_of(text).len() ==> is_kind_char(#[trigger] label_of(text)[i]),
        label_of(label_of(text)) == label_of(text),
{
    lemma_label_prefix(text);
    let label = label_of(text);
    lemma_kind_length(label, label.len() as int);
    assert(label.take(label.len() as int) == label);
}

/// The leading run of name characters lies within `text` and holds name
/// characters only.
pub proof fn lemma_label_prefix(text: Seq<char>)
    ensures
        kind_length(text) <= text.len(),
        forall|i: int| 0 <= i < kind_length(text) ==> is_kind_char(#[trigger] text[i]),
        kind_length(text) < text.len() ==> !is_kind_char(text[kind_length(text) as int]),
    decreases text.len(),
{
    if text.len() > 0 && is_kind_char(text[0]) {
        let rest = text.drop_first();
        lemma_label_prefix(rest);
        assert forall|i: int| 0 <= i < kind_length(text) implies is_kind_char(
            #[trigger] text[i],
        ) by {
            if i > 0 {
                assert(text[i] == rest[i - 1]);
            }
        }
        if kind_length(text) < text.len() {
            assert(text[kind_length(text) as int] == rest[kind_length(rest) as int]);
        }
    }
}

/// The label does not depend on the immediates: whatever follows the kind
/// in the rendering, the label is the kind.
pub proof fn lemma_label_ignores_immediates(kind: Seq<char>, first: Seq<char>, second: Seq<char>)
    requires
        forall|i: int| 0 <= i < kind.len() ==> is_kind_char(#[trigger] kind[i]),
        first.len() > 0 ==> !is_kind_char(first[0]),
        second.len() > 0 ==> !is_kind_char(second[0]),
    ensures
        label_of(kind + first) == kind,
        label_of(kind + second) == kind,
        label_of(kind + first) == label_of(kind + second),
{
    lemma_kind_length(kind + first, kind.len() as int);
    lemma_kind_length(kind + second, kind.len() as int);
    assert((kind + first).take(kind.len() as int) =~= kind);
    assert((kind + second).take(kind.len() as int) =~= kind);
}

} // verus!
