//! Comparisons of texts, character by character.

use vstd::prelude::*;

verus! {

/// Whether `text` begins with `prefix`.
pub open spec fn has_prefix(text: Seq<char>, prefix: Seq<char>) -> bool {
    prefix.len() <= text.len() && text.subrange(0, prefix.len() as int) == prefix
}

/// Whether the first `count` characters of two texts agree.
fn agree_up_to(a: &str, b: &str, count: usize) -> (agree: bool)
    requires
        count <= a@.len(),
        count <= b@.len(),
    ensures
        agree == (a@.subrange(0, count as int) == b@.subrange(0, count as int)),
{
    let mut i: usize = 0;
    while i < count
        invariant
            i <= count,
            count <= a@.len(),
            count <= b@.len(),
            a@.subrange(0, i as int) == b@.subrange(0, i as int),
        decreases count - i,
    {
        if a.get_char(i) != b.get_char(i) {
            assert(a@.subrange(0, count as int)[i as int] != b@.subrange(0, count as int)[i as int]);
            return false;
        }
        assert(a@.subrange(0, i + 1) =~= a@.subrange(0, i as int).push(a@[i as int]));
        assert(b@.subrange(0, i + 1) =~= b@.subrange(0, i as int).push(b@[i as int]));
        i += 1;
    }
    true
}

/// Whether two texts are the same.
pub fn same_text(a: &str, b: &str) -> (same: bool)
    ensures
        same == (a@ == b@),
{
    let length = a.unicode_len();
    if length != b.unicode_len() {
        return false;
    }
    assert(a@.subrange(0, length as int) =~= a@);
    assert(b@.subrange(0, length as int) =~= b@);
    agree_up_to(a, b, length)
}

/// Whether `text` begins with `prefix`.
pub fn starts_with(text: &str, prefix: &str) -> (begins: bool)
    ensures
        begins == has_prefix(text@, prefix@),
{
    let length = prefix.unicode_len();
    if length > text.unicode_len() {
        return false;
    }
    assert(prefix@.subrange(0, length as int) =~= prefix@);
    agree_up_to(text, prefix, length)
}

} // verus!
