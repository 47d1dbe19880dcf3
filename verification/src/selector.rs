//! Objective-C selector names and their argument counts.
use vstd::prelude::*;
use vstd::string::*;

verus! {

/// Number of `':'` in `name` at positions `from` and beyond.
pub open spec fn colons_from(name: Seq<char>, from: nat) -> nat
    decreases name.len() - from,
{
    if from >= name.len() {
        0
    } else {
        (if name[from as int] == ':' { 1nat } else { 0nat }) + colons_from(name, from + 1)
    }
}

/// The number of arguments a method with this selector takes besides the
/// receiver and the selector itself: one per colon in the name.
pub open spec fn selector_arity(name: Seq<char>) -> nat {
    colons_from(name, 0)
}

/// Past the end of `a`, counting colons in `a + b` is counting them in `b`.
proof fn lemma_colons_from_shift(a: Seq<char>, b: Seq<char>, k: nat)
    ensures
        colons_from(a + b, a.len() + k) == colons_from(b, k),
    decreases b.len() - k,
{
    if k < b.len() {
        assert((a + b)[a.len() + k as int] == b[k as int]);
        lemma_colons_from_shift(a, b, k + 1);
    }
}

/// Counting colons in `a + b` from a position inside `a`.
proof fn lemma_colons_from_concat(a: Seq<char>, b: Seq<char>, from: nat)
    requires
        from <= a.len(),
    ensures
        colons_from(a + b, from) == colons_from(a, from) + colons_from(b, 0),
    decreases a.len() - from,
{
    if from < a.len() {
        assert((a + b)[from as int] == a[from as int]);
        lemma_colons_from_concat(a, b, from + 1);
    } else {
        lemma_colons_from_shift(a, b, 0);
    }
}

/// The argument count of a selector is the number of its colons: the empty
/// name takes none, a one-character name takes one exactly when it is a colon,
/// and the count of two names put together is the sum of their counts.
pub proof fn lemma_selector_arity_counts_colons(a: Seq<char>, b: Seq<char>, c: char)
    ensures
        selector_arity(Seq::<char>::empty()) == 0,
        selector_arity(seq![c]) == if c == ':' { 1nat } else { 0nat },
        selector_arity(a + b) == selector_arity(a) + selector_arity(b),
{
    lemma_colons_from_concat(a, b, 0);
    assert(colons_from(seq![c], 1) == 0);
}

/// Counts the arguments that a method with the selector `name` takes: the
/// colons in the name.
pub fn selector_argument_count(name: &str) -> (count: usize)
    ensures
        count == selector_arity(name@),
{
    let len = name.unicode_len();
    let mut count: usize = 0;
    let mut i: usize = len;
    while i > 0
        invariant
            len == name@.len(),
            i <= len,
            count == colons_from(name@, i as nat),
            count <= len - i,
        decreases i,
    {
        i = i - 1;
        if name.get_char(i) == ':' {
            count = count + 1;
        }
    }
    count
}

} // verus!
