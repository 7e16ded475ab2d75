use vstd::prelude::*;
use crate::session::Event;

verus! {

/// The bit that marks a content-modified event in a file-event mask (the
/// kernel's `IN_MODIFY`).
pub const MODIFY_MASK: u32 = 0x2;

/// Whether one event mask reports that a file's content was modified.
pub open spec fn is_modify(mask: u32) -> bool {
    mask & MODIFY_MASK != 0
}

/// Whether any of the masks drained from the watcher reports a modification.
pub open spec fn any_modify(masks: Seq<u32>) -> bool {
    exists|i: int| 0 <= i < masks.len() && #[trigger] is_modify(masks[i])
}

/// Whether one event mask reports that a file's content was modified.
pub fn mask_is_modify(mask: u32) -> (r: bool)
    ensures
        r == is_modify(mask),
{
    mask & MODIFY_MASK != 0
}

/// Whether the events drained from the watcher since the last poll hold a
/// content modification; any number of them counts as one change.
pub fn any_modified(masks: &Vec<u32>) -> (r: bool)
    ensures
        r == any_modify(masks@),
{
    let mut i: usize = 0;
    while i < masks.len()
        invariant
            i <= masks@.len(),
            forall|j: int| 0 <= j < i ==> !#[trigger] is_modify(masks@[j]),
        decreases masks@.len() - i,
    {
        if mask_is_modify(masks[i]) {
            return true;
        }
        i = i + 1;
    }
    false
}

/// The report of one finished frame: whether the window was asked to close
/// while its events were drained, and whether a watched file changed.
pub fn frame_event(closed: bool, masks: &Vec<u32>) -> (e: Event)
    ensures
        e == (Event::FrameShown { closed, changed: any_modify(masks@) }),
{
    let changed = any_modified(masks);
    Event::FrameShown { closed, changed }
}

} // verus!
