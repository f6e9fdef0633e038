//! The way up from a page: what removing a page walks, tested before any
//! page is removed.
//!
//! Removing a page climbs from it to its parent, to the parent of that, and
//! so on, and lowers the count of each node it passes. On a document whose
//! parents run in a circle the climb would never end, and a count at the
//! least integer cannot be lowered. Such a document is refused when the
//! batch is made.

use crate::document::{
    count_of, document_pages, node_count, node_parent, object_count, parent_of,
};
use vstd::prelude::*;

verus! {

/// The least count that can still be lowered once for every page number
/// there is: 2^32 above the least 64-bit integer.
pub const COUNT_FLOOR: i64 = -9_223_372_032_559_808_512;

/// Whether a node with this count, if it has one, can be passed by every
/// climb.
pub open spec fn count_can_drop(count: Option<i64>) -> bool {
    count matches Some(n) ==> n >= COUNT_FLOOR
}

/// Whether the climb from `id` ends within `steps` steps and passes only
/// nodes whose count can drop.
pub open spec fn climb_is_safe(doc: lopdf::Document, id: (u32, u16), steps: nat) -> bool
    decreases steps,
{
    match node_parent(doc, id) {
        None => true,
        Some(up) => steps > 0 && count_can_drop(node_count(doc, up)) && climb_is_safe(
            doc,
            up,
            (steps - 1) as nat,
        ),
    }
}

/// Whether pages can be removed from the document: from each of its pages
/// the climb is safe within as many steps as the document has objects. A
/// climb that passes no node twice needs no more.
pub open spec fn safe_to_delete(doc: lopdf::Document) -> bool {
    forall|i: int|
        0 <= i < document_pages(doc).len() ==> climb_is_safe(
            doc,
            #[trigger] document_pages(doc)[i],
            object_count(doc) as nat,
        )
}

/// Climbs from `id` for at most `steps` steps.
pub fn climb(doc: &lopdf::Document, id: (u32, u16), steps: usize) -> (safe: bool)
    ensures
        safe == climb_is_safe(*doc, id, steps as nat),
{
    let mut at = id;
    let mut left = steps;
    loop
        invariant
            climb_is_safe(*doc, id, steps as nat) == climb_is_safe(*doc, at, left as nat),
        decreases left,
    {
        let up = match parent_of(doc, at) {
            Some(up) => up,
            None => {
                return true;
            },
        };
        if left == 0 {
            return false;
        }
        if let Some(count) = count_of(doc, up) {
            if count < COUNT_FLOOR {
                return false;
            }
        }
        at = up;
        left = left - 1;
    }
}

/// Climbs from each of `ids` for at most `steps` steps.
pub fn climb_all(doc: &lopdf::Document, ids: &Vec<(u32, u16)>, steps: usize) -> (safe: bool)
    ensures
        safe == forall|i: int|
            0 <= i < ids@.len() ==> climb_is_safe(*doc, #[trigger] ids@[i], steps as nat),
{
    let mut i: usize = 0;
    while i < ids.len()
        invariant
            i <= ids.len(),
            forall|j: int| 0 <= j < i ==> climb_is_safe(*doc, #[trigger] ids@[j], steps as nat),
        decreases ids.len() - i,
    {
        if !climb(doc, ids[i], steps) {
            return false;
        }
        i = i + 1;
    }
    true
}

} // verus!
