//! Small operations on text.

use vstd::prelude::*;
use vstd::string::StringExecFns;

verus! {

/// Whether two texts are the same, character by character.
pub fn same_text(a: &str, b: &str) -> (same: bool)
    ensures
        same == (a@ == b@),
{
    a.to_owned() == b.to_owned()
}

/// `head` followed by `tail`.
pub fn join(head: &str, tail: &str) -> (joined: String)
    ensures
        joined@ == head@ + tail@,
{
    head.to_owned().concat(tail)
}

} // verus!
