//! Picking the longer of two wishes.
use vstd::prelude::*;
use crate::text::{trim, trimmed};

verus! {

/// Of two texts, the trimmed one with more characters; `None` when the two
/// trimmed texts have as many characters.
pub open spec fn longer_of(s1: Seq<char>, s2: Seq<char>) -> Option<Seq<char>> {
    let t1 = trimmed(s1);
    let t2 = trimmed(s2);
    if t1.len() > t2.len() {
        Some(t1)
    } else if t2.len() > t1.len() {
        Some(t2)
    } else {
        None
    }
}

/// The longer of two wishes once leading and trailing white space is
/// dropped, counted in characters, as a part of the argument it came from;
/// `None` when they are equally long.
pub fn longer_wish<'a>(s1: &'a str, s2: &'a str) -> (r: Option<&'a str>)
    ensures
        r is Some <==> longer_of(s1@, s2@) is Some,
        r matches Some(w) ==> longer_of(s1@, s2@) == Some(w@),
{
    let t1 = trim(s1);
    let t2 = trim(s2);
    let n1: usize = t1.unicode_len();
    let n2: usize = t2.unicode_len();
    if n1 > n2 {
        Some(t1)
    } else if n2 > n1 {
        Some(t2)
    } else {
        None
    }
}

} // verus!
