//! The tag registry and the priority selector: turning a user's choice into
//! a canonical tag or priority.

use vstd::prelude::*;
use crate::data::{Priority, TaskError, UNCATEGORIZED};
use crate::text::{blank, decimal_of, is_blank, parse_usize};

verus! {

/// The tag names a registry holds, in order.
pub open spec fn tag_names(tags: Seq<String>) -> Seq<Seq<char>> {
    tags.map_values(|t: String| t@)
}

/// What resolving the tag choice `input` does: blank text picks the
/// uncategorized tag; a number `n` in `1..=len` picks the `n`-th tag; any
/// other number is an invalid selection; other text becomes a new tag,
/// appended to the registry (even if an equal one is already there). Only
/// the last case changes the registry, from `before` to `after`.
pub open spec fn resolves(
    input: Seq<char>,
    before: Seq<String>,
    after: Seq<String>,
    r: Result<String, TaskError>,
) -> bool {
    if is_blank(input) {
        (r matches Ok(t) && t@ == UNCATEGORIZED@) && after == before
    } else if decimal_of(input) is Some {
        let n = decimal_of(input)->0;
        &&& after == before
        &&& if 1 <= n <= before.len() {
            r matches Ok(t) && t@ == before[n - 1]@
        } else {
            r == Err::<String, TaskError>(TaskError::InvalidTagSelection)
        }
    } else {
        &&& (r matches Ok(t) && t@ == input)
        &&& after.len() == before.len() + 1
        &&& after.drop_last() == before
        &&& after.last()@ == input
    }
}

/// Resolves a tag choice against the registry `all_tags`.
pub fn resolve_tag(input: &str, all_tags: &mut Vec<String>) -> (r: Result<String, TaskError>)
    ensures
        resolves(input@, old(all_tags)@, final(all_tags)@, r),
{
    if blank(input) {
        return Ok(UNCATEGORIZED.to_string());
    }
    match parse_usize(input) {
        Some(id) => {
            if id > 0 && id <= all_tags.len() {
                Ok(all_tags[id - 1].clone())
            } else {
                Err(TaskError::InvalidTagSelection)
            }
        },
        None => {
            all_tags.push(input.to_string());
            proof {
                assert(final(all_tags)@.drop_last() =~= old(all_tags)@);
            }
            Ok(input.to_string())
        },
    }
}

/// The priority a selector names: 1 is high, 2 medium, 3 low.
pub open spec fn priority_of(n: nat) -> Option<Priority> {
    if n == 1 {
        Some(Priority::Alta)
    } else if n == 2 {
        Some(Priority::Media)
    } else if n == 3 {
        Some(Priority::Baja)
    } else {
        None
    }
}

/// What a priority selector text yields.
pub open spec fn priority_selection(s: Seq<char>) -> Result<Priority, TaskError> {
    match decimal_of(s) {
        Some(n) => match priority_of(n) {
            Some(p) => Ok(p),
            None => Err(TaskError::InvalidPriority),
        },
        None => Err(TaskError::InvalidPriority),
    }
}

/// Validates a priority selector against the fixed set of levels.
pub fn parse_priority(input: &str) -> (r: Result<Priority, TaskError>)
    ensures
        r == priority_selection(input@),
{
    match parse_usize(input) {
        Some(1) => Ok(Priority::Alta),
        Some(2) => Ok(Priority::Media),
        Some(3) => Ok(Priority::Baja),
        _ => Err(TaskError::InvalidPriority),
    }
}

} // verus!
