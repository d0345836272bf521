//! Small helpers on strings.

use vstd::prelude::*;
use vstd::string::*;

verus! {

/// Whether two texts read the same.
pub fn same_text(a: &str, b: &str) -> (same: bool)
    ensures
        same == (a@ == b@),
{
    let left: String = a.to_owned();
    let right: String = b.to_owned();
    left == right
}

/// A copy of a text that may be missing.
pub fn copy_text(text: &Option<String>) -> (copy: Option<String>)
    ensures
        copy == *text,
{
    match text {
        Some(t) => Some(t.clone()),
        None => None,
    }
}

/// `first` followed by `second`.
pub fn joined(first: &str, second: &str) -> (text: String)
    ensures
        text@ == first@ + second@,
{
    let mut text: String = first.to_owned();
    text.append(second);
    text
}

} // verus!
