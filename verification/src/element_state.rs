//! Persistent per-identity element state: what survives across frames
//! for an element with a stable identity — the click-armed flags, the
//! hover flag, the pending mouse down used to disambiguate click from
//! drag, the scroll offset, and the active tooltip slot.

use crate::events::MouseDownEvent;
use crate::geometry::Point;
use crate::store::Store;
use vstd::prelude::*;

verus! {

/// Whether or not the element or a group that contains it is clicked by
/// the mouse.
#[derive(Clone, Copy, Debug, PartialEq, Eq, Structural)]
pub struct ElementClickedState {
    /// True if this element's group has been clicked, false otherwise.
    pub group: bool,
    /// True if this element has been clicked, false otherwise.
    pub element: bool,
}

impl ElementClickedState {
    /// Neither the element nor its group is clicked.
    pub fn unclicked() -> (r: ElementClickedState)
        ensures
            r == (ElementClickedState { group: false, element: false }),
    {
        ElementClickedState { group: false, element: false }
    }

    /// Whether the element or its group is clicked.
    pub fn is_clicked(&self) -> (r: bool)
        ensures
            r == (self.group || self.element),
    {
        self.group || self.element
    }
}

impl Default for ElementClickedState {
    /// Neither clicked.
    fn default() -> (r: ElementClickedState)
        ensures
            r == (ElementClickedState { group: false, element: false }),
    {
        ElementClickedState { group: false, element: false }
    }
}

/// A materialized tooltip: the token of its built view and the pointer
/// position at the moment it was built.
#[derive(Clone, Copy, Debug, PartialEq, Eq, Structural)]
pub struct TooltipView {
    /// Token for the built tooltip view.
    pub render: u64,
    /// Pointer position when the tooltip was built.
    pub mouse_position: Point,
}

/// A scheduled tooltip delay task: a fresh identifier and the time the
/// hover began. Dropping the slot that holds it cancels the task.
#[derive(Clone, Copy, Debug, PartialEq, Eq, Structural)]
pub struct TooltipTask {
    /// Identifier of the scheduled task; never reused within a context.
    pub id: u64,
    /// When the task was scheduled, in milliseconds.
    pub scheduled_at: u64,
}

/// The current active tooltip of an element: either a pending delayed
/// task that has not materialized yet, or the materialized tooltip.
#[derive(Clone, Copy, Debug, PartialEq, Eq, Structural)]
pub struct ActiveTooltip {
    /// The materialized tooltip, absent while the delay is still
    /// running.
    pub tooltip: Option<TooltipView>,
    /// The scheduled delay task, absent once the tooltip materialized.
    /// Clearing the slot cancels the task.
    pub task: Option<TooltipTask>,
}

/// The persistent state of an interactive element, keyed by its stable
/// identity and surviving as long as an element with that identity is
/// declared.
#[derive(Clone, Copy, Debug, PartialEq, Eq, Structural)]
pub struct InteractiveElementState {
    /// Focus handle created lazily for a focusable element that tracked
    /// none of its own.
    pub focus_handle: Option<u64>,
    /// The click-armed flag pair.
    pub clicked_state: ElementClickedState,
    /// Whether the element was hovered after the last mouse move.
    pub hover_state: bool,
    /// The mouse down that landed on the element and has not yet
    /// resolved into a click or a drag.
    pub pending_mouse_down: Option<MouseDownEvent>,
    /// The scroll offset cell, present once the element scrolls.
    pub scroll_offset: Option<Point>,
    /// The tooltip slot: pending task or materialized tooltip.
    pub active_tooltip: Option<ActiveTooltip>,
}

impl InteractiveElementState {
    /// The state an identity starts from: nothing armed, nothing
    /// hovered, nothing scheduled.
    pub fn empty() -> (r: InteractiveElementState)
        ensures
            r == InteractiveElementState::spec_empty(),
    {
        InteractiveElementState {
            focus_handle: None,
            clicked_state: ElementClickedState { group: false, element: false },
            hover_state: false,
            pending_mouse_down: None,
            scroll_offset: None,
            active_tooltip: None,
        }
    }

    /// The state an identity starts from.
    pub open spec fn spec_empty() -> InteractiveElementState {
        InteractiveElementState {
            focus_handle: None,
            clicked_state: ElementClickedState { group: false, element: false },
            hover_state: false,
            pending_mouse_down: None,
            scroll_offset: None,
            active_tooltip: None,
        }
    }
}

impl Default for InteractiveElementState {
    /// The state an identity starts from.
    fn default() -> (r: InteractiveElementState)
        ensures
            r == InteractiveElementState::spec_empty(),
    {
        InteractiveElementState::empty()
    }
}

/// The store of persistent element state, keyed by stable identity. An
/// identity that was never written reads as the empty state.
pub struct StateStore {
    /// The underlying keyed entries.
    pub store: Store<InteractiveElementState>,
}

impl StateStore {
    /// Keys are unique.
    pub open spec fn wf(self) -> bool {
        self.store.wf()
    }

    /// The state recorded for an identity; the empty state if none was.
    pub open spec fn spec_state(self, id: u64) -> InteractiveElementState {
        match self.store.spec_get(id) {
            Some(st) => st,
            None => InteractiveElementState::spec_empty(),
        }
    }

    /// An empty store: every identity reads as the empty state.
    pub fn new() -> (r: StateStore)
        ensures
            r.wf(),
            forall|k: u64| r.spec_state(k) == InteractiveElementState::spec_empty(),
    {
        StateStore { store: Store::new() }
    }

    /// Read the state of an identity.
    pub fn get(&self, id: u64) -> (r: InteractiveElementState)
        ensures
            r == self.spec_state(id),
    {
        match self.store.get(id) {
            Some(st) => st,
            None => InteractiveElementState::empty(),
        }
    }

    /// Write the state of an identity.
    pub fn set(&mut self, id: u64, st: InteractiveElementState)
        requires
            old(self).wf(),
        ensures
            final(self).wf(),
            final(self).spec_state(id) == st,
            forall|k: u64| k != id ==> final(self).spec_state(k) == old(self).spec_state(k),
    {
        self.store.set(id, st);
    }

    /// Drop the state of an identity, as the pipeline does when no
    /// element with that identity is declared any more.
    pub fn remove(&mut self, id: u64)
        requires
            old(self).wf(),
        ensures
            final(self).wf(),
            final(self).spec_state(id) == InteractiveElementState::spec_empty(),
            forall|k: u64| k != id ==> final(self).spec_state(k) == old(self).spec_state(k),
    {
        let _ = self.store.take(id);
    }
}

} // verus!
