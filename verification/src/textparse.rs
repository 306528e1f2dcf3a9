//! Splitting a string at the first occurrence of a tag, the one outside
//! operation the error-decomposition helpers rely on, with the spec
//! vocabulary to speak about tag occurrences.

use vstd::prelude::*;

verus! {

/// The tag occurs in `s` at position `i`.
pub open spec fn tag_at(s: Seq<char>, tag: Seq<char>, i: int) -> bool {
    &&& 0 <= i
    &&& i + tag.len() <= s.len()
    &&& s.subrange(i, i + tag.len()) == tag
}

/// The first position at or after `i` where the (non-empty) tag occurs, or
/// `s.len() + 1` when it occurs nowhere there.
pub open spec fn first_tag_from(s: Seq<char>, tag: Seq<char>, i: int) -> int
    decreases s.len() - i when 0 <= i
{
    if tag.len() == 0 || i + tag.len() > s.len() {
        s.len() as int + 1
    } else if tag_at(s, tag, i) {
        i
    } else {
        first_tag_from(s, tag, i + 1)
    }
}

/// The first position where the tag occurs in `s`, or `s.len() + 1`.
pub open spec fn first_tag(s: Seq<char>, tag: Seq<char>) -> int {
    first_tag_from(s, tag, 0)
}

/// The tag occurs somewhere in `s`.
pub open spec fn has_tag(s: Seq<char>, tag: Seq<char>) -> bool {
    first_tag(s, tag) <= s.len()
}

/// Split `s` at the first occurrence of `tag`: the part before the tag, and
/// the rest of `s` from the tag on. Nothing when the tag does not occur.
///
/// Relies on nom's `take_until` (complete), which splits its input at the
/// first occurrence of the tag — `str::find` — and fails exactly when the
/// tag is absent.
#[verifier::external_body]
pub(crate) fn take_until_split<'a>(s: &'a str, tag: &str) -> (r: Option<(&'a str, &'a str)>)
    requires
        tag@.len() >= 1,
    ensures
        r is Some <==> has_tag(s@, tag@),
        r matches Some((pre, rest)) ==> {
            &&& pre@ == s@.subrange(0, first_tag(s@, tag@))
            &&& rest@ == s@.subrange(first_tag(s@, tag@), s@.len() as int)
        },
{
    match nom::bytes::complete::take_until::<&str, &str, nom::error::Error<&str>>(tag)(s) {
        Ok((rest, pre)) => Some((pre, rest)),
        Err(_) => None,
    }
}

/// Relies on `String`'s `FromIterator` over `char`: the characters of the
/// result are exactly the characters of the vector, in order.
#[verifier::external_body]
pub(crate) fn string_from_chars(v: &Vec<char>) -> (r: String)
    ensures
        r@ == v@,
{
    v.iter().collect()
}

} // verus!
