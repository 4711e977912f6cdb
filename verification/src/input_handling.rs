//! Choosing the menu item a click lands on, when the toolkit's own click
//! handling is not available.  Where the press and release points fall is
//! decided by the caller (it works in the toolkit's fractional
//! coordinates); the choice among the items is made here.

use vstd::prelude::*;

verus! {

/// Where a press and a release fell relative to one menu item.
#[derive(Clone, Copy, Debug, PartialEq, Eq, Structural)]
pub struct ItemHit {
    /// The item can be clicked.
    pub enabled: bool,
    /// The item has an area on the screen.
    pub has_rect: bool,
    /// The press point lies in the item's (widened) area.
    pub press_inside: bool,
    /// The release point lies in the item's (widened) area.
    pub release_inside: bool,
}

/// The item is hit: it is enabled, has an area, and holds the release point
/// and, when there was a press, the press point too.
pub open spec fn is_hit(h: ItemHit, press_given: bool) -> bool {
    h.enabled && h.has_rect && h.release_inside && (press_given ==> h.press_inside)
}

/// The first item that is hit, in order.
pub fn first_hit_item(hits: &[ItemHit], press_given: bool) -> (r: Option<usize>)
    ensures
        match r {
            Some(i) => i < hits@.len() && is_hit(hits@[i as int], press_given) && forall|k: int|
                0 <= k < i ==> !is_hit(#[trigger] hits@[k], press_given),
            None => forall|k: int| 0 <= k < hits@.len() ==> !is_hit(#[trigger] hits@[k], press_given),
        },
{
    let mut i: usize = 0;
    while i < hits.len()
        invariant
            i <= hits@.len(),
            forall|k: int| 0 <= k < i ==> !is_hit(#[trigger] hits@[k], press_given),
        decreases hits.len() - i,
    {
        let h = hits[i];
        if h.enabled && h.has_rect && h.release_inside && (!press_given || h.press_inside) {
            return Some(i);
        }
        i = i + 1;
    }
    None
}

} // verus!
