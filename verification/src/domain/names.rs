//! Account names, which are compared without regard to case.

use vstd::prelude::*;

verus! {

/// The lower-case form that `str::to_lowercase` gives a text.
pub uninterp spec fn lowercase(text: Seq<char>) -> Seq<char>;

/// `str::to_lowercase` depends on its argument alone; its result is named
/// `lowercase`.
pub assume_specification[ str::to_lowercase ](text: &str) -> (lower: String)
    ensures
        lower@ == lowercase(text@),
;

/// Two names are the same name when their lower-case forms are equal.
pub open spec fn same_name(left: Seq<char>, right: Seq<char>) -> bool {
    lowercase(left) == lowercase(right)
}

/// Whether two names are the same name.
pub fn names_match(left: &str, right: &str) -> (same: bool)
    ensures
        same == same_name(left@, right@),
{
    let left_lower = left.to_lowercase();
    let right_lower = right.to_lowercase();
    left_lower == right_lower
}

} // verus!
