//! Text helpers that the store and the client share.

use vstd::prelude::*;
use vstd::string::StringExecFns;

verus! {

/// What `str::trim` of the standard library returns for `text`: the text
/// without its leading and trailing white space.
pub uninterp spec fn trimmed(text: Seq<char>) -> Seq<char>;

/// Calls `str::trim`. Not proved: that the slice handed back is the one that
/// [`trimmed`] stands for, which depends on the text alone.
#[verifier::external_body]
pub(crate) fn trim(text: &str) -> (kept: &str)
    ensures
        kept@ == trimmed(text@),
{
    text.trim()
}

/// `head` followed by `tail`, as a new string.
pub(crate) fn join(head: &str, tail: &str) -> (joined: String)
    ensures
        joined@ == head@ + tail@,
{
    let mut joined = String::from_str(head);
    joined.append(tail);
    joined
}

} // verus!
