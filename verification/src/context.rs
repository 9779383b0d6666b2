//! Process-wide interaction state that outlives any single frame: the
//! single active-drag slot, the focus target, and tuning constants.

use crate::geometry::{Point, COORD_LIMIT};
use vstd::prelude::*;

verus! {

/// A drag in progress. At most one exists at a time, held in
/// [`Context::active_drag`]. The payload and renderer are tokens owned by
/// the embedding application; the library never duplicates the payload,
/// it moves from the drag binding into this slot when the drag starts.
#[derive(Clone, Copy, Debug, PartialEq, Eq, Structural)]
pub struct AnyDrag {
    /// Token for the dragged value.
    pub value: u64,
    /// Type tag of the dragged value; drop listeners match on it.
    pub value_type: u64,
    /// Token for the closure that renders the dragged value.
    pub render: u64,
    /// Offset from the dragged element's origin to the pointer when the
    /// drag started.
    pub cursor_offset: Point,
}

/// Interaction state shared by the whole window across frames.
pub struct Context {
    /// The single active drag, if any.
    pub active_drag: Option<AnyDrag>,
    /// Set when some handler changed state that requires a repaint.
    pub refresh_requested: bool,
    /// The focus handle that currently has keyboard focus, if any.
    pub focused: Option<u64>,
    /// The focused handle together with the handles of its ancestor
    /// elements, maintained by the frame pipeline; a handle is "within
    /// focus" when it appears here.
    pub focus_chain: Vec<u64>,
    /// A pointer must move more than this many pixels from a pending
    /// mouse down before the gesture becomes a drag.
    pub drag_threshold: i64,
    /// How long hover must persist before a tooltip materializes, in
    /// milliseconds.
    pub tooltip_delay: u64,
    /// Source of fresh identifiers for scheduled tooltip tasks; strictly
    /// greater than every identifier handed out so far.
    pub next_task_id: u64,
    /// Source of fresh focus handles for focusable elements that track
    /// none of their own.
    pub next_focus_handle: u64,
}

impl Context {
    /// Threshold in a range whose square fits comfortably in `i64`.
    pub open spec fn wf(self) -> bool {
        0 <= self.drag_threshold <= COORD_LIMIT
    }

    /// Whether a drag is in progress.
    pub open spec fn spec_has_active_drag(self) -> bool {
        self.active_drag is Some
    }

    /// Whether a drag is in progress.
    pub fn has_active_drag(&self) -> (r: bool)
        ensures
            r == self.spec_has_active_drag(),
    {
        self.active_drag.is_some()
    }

    /// Whether the given focus handle has keyboard focus.
    pub open spec fn spec_is_focused(self, handle: u64) -> bool {
        self.focused == Some(handle)
    }

    /// Whether the given focus handle is the focused one or an ancestor
    /// of it.
    pub open spec fn spec_within_focused(self, handle: u64) -> bool {
        self.focus_chain@.contains(handle)
    }

    /// Whether the given focus handle has keyboard focus.
    pub fn is_focused(&self, handle: u64) -> (r: bool)
        ensures
            r == self.spec_is_focused(handle),
    {
        match self.focused {
            Some(f) => f == handle,
            None => false,
        }
    }

    /// Whether the given focus handle is the focused one or an ancestor
    /// of it.
    pub fn within_focused(&self, handle: u64) -> (r: bool)
        ensures
            r == self.spec_within_focused(handle),
    {
        let mut j: usize = 0;
        while j < self.focus_chain.len()
            invariant
                j <= self.focus_chain@.len(),
                forall|k: int| 0 <= k < j ==> self.focus_chain@[k] != handle,
            decreases self.focus_chain@.len() - j,
        {
            if self.focus_chain[j] == handle {
                return true;
            }
            j = j + 1;
        }
        false
    }

    /// Record that a repaint is needed.
    pub fn refresh(&mut self)
        ensures
            *final(self) == (Context { refresh_requested: true, ..*old(self) }),
    {
        self.refresh_requested = true;
    }
}

} // verus!
