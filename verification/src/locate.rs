//! Finding how much of a new source text is already known: only text appended
//! behind the previous source counts as new.

use vstd::prelude::*;

use crate::diary::{Diary, DiaryContent};
use crate::text::str_starts_with;

verus! {

/// The stable index of `new_source` against `previous`: the length of the
/// previous source where the new one begins with it, and 0 where it does not
/// or where there is no previous source.
pub open spec fn stable_index(new_source: Seq<char>, previous: Option<Seq<char>>) -> nat {
    match previous {
        Some(p) => if p.is_prefix_of(new_source) {
            p.len()
        } else {
            0
        },
        None => 0,
    }
}

/// The stable index of `new_content` against the previous source `old_content`:
/// the length of the old text where the new text only appends to it, else 0.
pub fn find_target_index(new_content: &DiaryContent, old_content: &DiaryContent) -> (r: usize)
    ensures
        r == stable_index(new_content@, Some(old_content@)),
        old_content@.is_prefix_of(new_content@) ==> r == old_content@.len(),
        !old_content@.is_prefix_of(new_content@) ==> r == 0,
        r <= new_content@.len(),
{
    if str_starts_with(new_content.to_str(), old_content.to_str()) {
        old_content.to_length()
    } else {
        0
    }
}

/// The stable index of `new_content` against the source diary that is stored,
/// if any.
pub fn locate(new_content: &DiaryContent, previous: Option<&Diary>) -> (r: usize)
    ensures
        r == stable_index(
            new_content@,
            match previous {
                Some(d) => Some(d@.content),
                None => None,
            },
        ),
        r <= new_content@.len(),
{
    match previous {
        Some(old_diary) => find_target_index(new_content, old_diary.content()),
        None => 0,
    }
}

} // verus!
