//! Optional strings and what they hold.

use vstd::prelude::*;

verus! {

/// The text an optional string holds, if it holds one.
pub open spec fn text_of(s: Option<String>) -> Option<Seq<char>> {
    match s {
        Some(t) => Some(t@),
        None => None,
    }
}

/// A copy of an optional string.
pub fn copy_of(source: &Option<String>) -> (copy: Option<String>)
    ensures
        text_of(copy) == text_of(*source),
{
    match source {
        Some(text) => Some(text.clone()),
        None => None,
    }
}

} // verus!
