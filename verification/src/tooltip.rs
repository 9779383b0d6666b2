//! The tooltip scheduler.
//!
//! When hover begins over an element with a tooltip builder — no pending
//! press, no active drag — a delayed task is scheduled and remembered in
//! the element's tooltip slot. Losing hover, a press, or a scroll before
//! the delay elapses clears the slot, which cancels the task: a cleared
//! task's identifier is never reissued, so its later firing can never
//! materialize a tooltip. If the task fires while the slot still holds
//! it and the delay has elapsed, the builder's view is stored together
//! with the pointer position of that moment. A "hoverable" tooltip is
//! exempt from clearing while the pointer is over the tooltip itself.

use crate::context::Context;
use crate::element_state::{ActiveTooltip, InteractiveElementState, TooltipTask, TooltipView};
use crate::events::DispatchPhase;
use crate::geometry::Point;
use vstd::prelude::*;

verus! {

/// One event seen by an element's tooltip scheduler.
pub enum TooltipEvent {
    /// A pointer move: whether the element counts as hovered (hitbox
    /// hovered with no pending press), whether the tooltip itself is
    /// hovered, the dispatch phase, and the time.
    Move { phase: DispatchPhase, is_hovered: bool, tooltip_hovered: bool, now: u64 },
    /// A press anywhere; clears the slot unless the tooltip itself is
    /// hovered and hoverable.
    Down { tooltip_hovered: bool },
    /// A scroll anywhere; clears the slot like a press.
    Scroll { tooltip_hovered: bool },
    /// A scheduled delay task fired: its identifier, the time, the
    /// built view's token and the pointer position.
    Fire { task_id: u64, now: u64, view: u64, position: Point },
}

/// Whether the slot holds a still-pending task with the given
/// identifier.
pub open spec fn spec_slot_pending_id(slot: Option<ActiveTooltip>, task_id: u64) -> bool {
    &&& slot matches Some(a)
    &&& a.tooltip is None
    &&& a.task matches Some(t)
    &&& t.id == task_id
}

/// One step of the tooltip scheduler: the slot and the task-identifier
/// counter after handling one event.
pub open spec fn spec_tooltip_step(
    slot: Option<ActiveTooltip>,
    counter: u64,
    hoverable: bool,
    delay: u64,
    ev: TooltipEvent,
) -> (Option<ActiveTooltip>, u64) {
    match ev {
        TooltipEvent::Move { phase, is_hovered, tooltip_hovered, now } => {
            if !is_hovered && (!hoverable || !tooltip_hovered) {
                (None, counter)
            } else if phase != DispatchPhase::Bubble {
                (slot, counter)
            } else if slot is None {
                (
                    Some(
                        ActiveTooltip {
                            tooltip: None,
                            task: Some(TooltipTask { id: counter, scheduled_at: now }),
                        },
                    ),
                    (counter + 1) as u64,
                )
            } else {
                (slot, counter)
            }
        },
        TooltipEvent::Down { tooltip_hovered } => {
            if !hoverable || !tooltip_hovered {
                (None, counter)
            } else {
                (slot, counter)
            }
        },
        TooltipEvent::Scroll { tooltip_hovered } => {
            if !hoverable || !tooltip_hovered {
                (None, counter)
            } else {
                (slot, counter)
            }
        },
        TooltipEvent::Fire { task_id, now, view, position } => {
            if slot matches Some(a) && (a.tooltip is None && (a.task matches Some(t) && (t.id
                == task_id && now >= t.scheduled_at + delay))) {
                (
                    Some(
                        ActiveTooltip {
                            tooltip: Some(TooltipView { render: view, mouse_position: position }),
                            task: None,
                        },
                    ),
                    counter,
                )
            } else {
                (slot, counter)
            }
        },
    }
}

/// Handle a pointer move for the tooltip scheduler. Returns the
/// identifier of a newly scheduled delay task, to be armed by the
/// embedding for the configured delay, or `None`. Hover — over the
/// hitbox, with no pending press and no active drag — begins a session:
/// the slot records the task and the time; losing hover clears the
/// slot.
pub fn tooltip_on_mouse_move(
    state: &mut InteractiveElementState,
    cx: &mut Context,
    phase: DispatchPhase,
    hovered: bool,
    tooltip_hovered: bool,
    hoverable: bool,
    now: u64,
) -> (scheduled: Option<u64>)
    requires
        old(cx).next_task_id < u64::MAX,
    ensures
        ({
            let is_hovered = old(state).pending_mouse_down is None && !old(
                cx,
            ).spec_has_active_drag() && hovered;
            let step = spec_tooltip_step(
                old(state).active_tooltip,
                old(cx).next_task_id,
                hoverable,
                old(cx).tooltip_delay,
                TooltipEvent::Move { phase, is_hovered, tooltip_hovered, now },
            );
            &&& final(state).active_tooltip == step.0
            &&& *final(state) == (InteractiveElementState {
                active_tooltip: step.0,
                ..*old(state)
            })
            &&& final(cx).next_task_id == step.1
            &&& scheduled == if step.1 != old(cx).next_task_id {
                Some(old(cx).next_task_id)
            } else {
                None::<u64>
            }
            &&& *final(cx) == (Context {
                next_task_id: step.1,
                refresh_requested: final(cx).refresh_requested,
                ..*old(cx)
            })
            &&& final(cx).refresh_requested == (old(cx).refresh_requested || (
            old(state).active_tooltip is Some && step.0 is None))
        }),
{
    let is_hovered = state.pending_mouse_down.is_none() && !cx.has_active_drag() && hovered;
    if !is_hovered && (!hoverable || !tooltip_hovered) {
        if state.active_tooltip.take().is_some() {
            cx.refresh();
        }
        return None;
    }
    if phase != DispatchPhase::Bubble {
        return None;
    }
    if state.active_tooltip.is_none() {
        let task_id = cx.next_task_id;
        cx.next_task_id = cx.next_task_id + 1;
        state.active_tooltip = Some(
            ActiveTooltip { tooltip: None, task: Some(TooltipTask { id: task_id, scheduled_at: now }) },
        );
        return Some(task_id);
    }
    None
}

/// Handle a press for the tooltip scheduler: the slot clears — pending
/// task cancelled, visible tooltip dismissed — unless the tooltip is
/// hoverable and itself hovered.
pub fn tooltip_on_mouse_down(
    state: &mut InteractiveElementState,
    cx: &mut Context,
    tooltip_hovered: bool,
    hoverable: bool,
)
    ensures
        ({
            let step = spec_tooltip_step(
                old(state).active_tooltip,
                old(cx).next_task_id,
                hoverable,
                old(cx).tooltip_delay,
                TooltipEvent::Down { tooltip_hovered },
            );
            &&& *final(state) == (InteractiveElementState {
                active_tooltip: step.0,
                ..*old(state)
            })
            &&& *final(cx) == (Context {
                refresh_requested: old(cx).refresh_requested || (
                old(state).active_tooltip is Some && step.0 is None),
                ..*old(cx)
            })
        }),
{
    if !hoverable || !tooltip_hovered {
        if state.active_tooltip.take().is_some() {
            cx.refresh();
        }
    }
}

/// Handle a scroll for the tooltip scheduler: same clearing rule as a
/// press.
pub fn tooltip_on_scroll(
    state: &mut InteractiveElementState,
    cx: &mut Context,
    tooltip_hovered: bool,
    hoverable: bool,
)
    ensures
        ({
            let step = spec_tooltip_step(
                old(state).active_tooltip,
                old(cx).next_task_id,
                hoverable,
                old(cx).tooltip_delay,
                TooltipEvent::Scroll { tooltip_hovered },
            );
            &&& *final(state) == (InteractiveElementState {
                active_tooltip: step.0,
                ..*old(state)
            })
            &&& *final(cx) == (Context {
                refresh_requested: old(cx).refresh_requested || (
                old(state).active_tooltip is Some && step.0 is None),
                ..*old(cx)
            })
        }),
{
    if !hoverable || !tooltip_hovered {
        if state.active_tooltip.take().is_some() {
            cx.refresh();
        }
    }
}

/// Handle the firing of a scheduled delay task. The tooltip
/// materializes — the built view and the pointer position are stored —
/// only if the slot still holds exactly this pending task and at least
/// the configured delay passed since it was scheduled; a task whose slot
/// was cleared or replaced is a cancelled session and does nothing.
pub fn tooltip_timer_fired(
    state: &mut InteractiveElementState,
    cx: &mut Context,
    task_id: u64,
    now: u64,
    view: u64,
    position: Point,
) -> (materialized: bool)
    ensures
        ({
            let step = spec_tooltip_step(
                old(state).active_tooltip,
                old(cx).next_task_id,
                false,
                old(cx).tooltip_delay,
                TooltipEvent::Fire { task_id, now, view, position },
            );
            &&& *final(state) == (InteractiveElementState {
                active_tooltip: step.0,
                ..*old(state)
            })
            &&& materialized == (step.0 != old(state).active_tooltip)
            &&& materialized ==> *final(cx) == (Context {
                refresh_requested: true,
                ..*old(cx)
            })
            &&& !materialized ==> *final(cx) == *old(cx)
        }),
        materialized ==> spec_slot_pending_id(old(state).active_tooltip, task_id) && now >= old(
            state,
        ).active_tooltip->0.task->0.scheduled_at + old(cx).tooltip_delay,
{
    match &state.active_tooltip {
        Some(active) => {
            if active.tooltip.is_none() {
                match &active.task {
                    Some(t) => {
                        if t.id == task_id && now >= t.scheduled_at && now - t.scheduled_at
                            >= cx.tooltip_delay {
                            state.active_tooltip = Some(
                                ActiveTooltip {
                                    tooltip: Some(
                                        TooltipView { render: view, mouse_position: position },
                                    ),
                                    task: None,
                                },
                            );
                            cx.refresh();
                            return true;
                        }
                        false
                    },
                    None => false,
                }
            } else {
                false
            }
        },
        None => false,
    }
}

/// The scheduler state after handling the first `k` events of a
/// sequence.
pub open spec fn spec_state_after(
    slot: Option<ActiveTooltip>,
    counter: u64,
    hoverable: bool,
    delay: u64,
    evs: Seq<TooltipEvent>,
    k: int,
) -> (Option<ActiveTooltip>, u64)
    decreases k,
{
    if k <= 0 {
        (slot, counter)
    } else {
        let prev = spec_state_after(slot, counter, hoverable, delay, evs, k - 1);
        spec_tooltip_step(prev.0, prev.1, hoverable, delay, evs[k - 1])
    }
}

/// Whether handling event `i` of the sequence materializes a tooltip
/// from the pending task with the given identifier.
pub open spec fn spec_materializes_at(
    slot: Option<ActiveTooltip>,
    counter: u64,
    hoverable: bool,
    delay: u64,
    evs: Seq<TooltipEvent>,
    i: int,
    task_id: u64,
) -> bool {
    let pre = spec_state_after(slot, counter, hoverable, delay, evs, i);
    &&& 0 <= i < evs.len()
    &&& evs[i] matches TooltipEvent::Fire { task_id: fired, now, .. }
    &&& fired == task_id
    &&& spec_slot_pending_id(pre.0, task_id)
    &&& pre.0->0.task matches Some(t) && now >= t.scheduled_at + delay
}

/// A tooltip materializes only after the configured delay: if handling
/// event `i` materializes the pending task, the firing time is at least
/// the task's schedule time — the moment hover began — plus the delay.
pub proof fn lemma_materialization_requires_delay(
    slot: Option<ActiveTooltip>,
    counter: u64,
    hoverable: bool,
    delay: u64,
    evs: Seq<TooltipEvent>,
    i: int,
    task_id: u64,
)
    requires
        spec_materializes_at(slot, counter, hoverable, delay, evs, i, task_id),
    ensures
        ({
            let pre = spec_state_after(slot, counter, hoverable, delay, evs, i);
            evs[i] matches TooltipEvent::Fire { now, .. } && now >= pre.0->0.task->0.scheduled_at
                + delay
        }),
{
}

/// Losing the hover session kills the tooltip for good: once the slot
/// no longer holds the pending task — hover was lost, a press or scroll
/// cleared it, or it already resolved — and every identifier the
/// scheduler will hand out is fresher than the task's, then no later
/// sequence of events can ever materialize that task: its firing is a
/// no-op forever.
pub proof fn lemma_cancelled_session_never_materializes(
    slot: Option<ActiveTooltip>,
    counter: u64,
    hoverable: bool,
    delay: u64,
    evs: Seq<TooltipEvent>,
    task_id: u64,
    k: int,
)
    requires
        !spec_slot_pending_id(slot, task_id),
        task_id < counter,
        counter + evs.len() <= u64::MAX,
        0 <= k <= evs.len(),
    ensures
        !spec_slot_pending_id(spec_state_after(slot, counter, hoverable, delay, evs, k).0, task_id),
        task_id < spec_state_after(slot, counter, hoverable, delay, evs, k).1,
        spec_state_after(slot, counter, hoverable, delay, evs, k).1 <= counter + k,
        forall|i: int|
            0 <= i < k ==> !spec_materializes_at(
                slot,
                counter,
                hoverable,
                delay,
                evs,
                i,
                task_id,
            ),
    decreases k,
{
    if k > 0 {
        lemma_cancelled_session_never_materializes(
            slot,
            counter,
            hoverable,
            delay,
            evs,
            task_id,
            k - 1,
        );
        let prev = spec_state_after(slot, counter, hoverable, delay, evs, k - 1);
        let next = spec_tooltip_step(prev.0, prev.1, hoverable, delay, evs[k - 1]);
        assert(spec_state_after(slot, counter, hoverable, delay, evs, k) == next);
        assert(!spec_slot_pending_id(next.0, task_id) && task_id < next.1);
        assert(forall|i: int|
            0 <= i < k ==> !spec_materializes_at(slot, counter, hoverable, delay, evs, i, task_id))
            by {
            assert(!spec_slot_pending_id(prev.0, task_id));
        }
    }
}

} // verus!
