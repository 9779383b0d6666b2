//! Click/drag disambiguation and the other per-element mouse reactions.
//!
//! A primary-button press that lands on a hovered element arms it: the
//! press is parked in the element's persistent state. A later move that
//! travels farther than the drag threshold turns the gesture into a drag
//! (if the element binds one and no drag is already active); a release on
//! the same element while still armed fires exactly one click carrying
//! the original press and the terminating release. The release clears the
//! armed slot during the capture pass, before any bubble listener runs,
//! so a bubbling listener that stops propagation can never observe stale
//! armed state.

use crate::context::{AnyDrag, Context};
use crate::element_state::{ElementClickedState, InteractiveElementState};
use crate::events::{ClickEvent, DispatchPhase, MouseButton, MouseDownEvent, MouseMoveEvent,
    MouseUpEvent};
use crate::geometry::{distance_squared, spec_distance_squared, Point};
use crate::interaction::{DragListener, DropListener};
use vstd::prelude::*;

verus! {

/// Whether a press arms the element: a bubble-phase primary-button press
/// while the element is hovered.
pub open spec fn spec_arms(ev: MouseDownEvent, phase: DispatchPhase, hovered: bool) -> bool {
    phase == DispatchPhase::Bubble && ev.button == MouseButton::Left && hovered
}

/// Park a primary-button press that landed on the element, arming it for
/// click/drag disambiguation.
pub fn process_mouse_down_arm(
    state: &mut InteractiveElementState,
    cx: &mut Context,
    ev: &MouseDownEvent,
    phase: DispatchPhase,
    hovered: bool,
)
    ensures
        spec_arms(*ev, phase, hovered) ==> *final(state) == (InteractiveElementState {
            pending_mouse_down: Some(*ev),
            ..*old(state)
        }) && *final(cx) == (Context { refresh_requested: true, ..*old(cx) }),
        !spec_arms(*ev, phase, hovered) ==> *final(state) == *old(state) && *final(cx) == *old(
            cx,
        ),
{
    if phase == DispatchPhase::Bubble && matches!(ev.button, MouseButton::Left) && hovered {
        state.pending_mouse_down = Some(*ev);
        cx.refresh();
    }
}

/// Whether a move turns the armed gesture into a drag: a bubble-phase
/// move while armed, with no drag already active, whose displacement
/// from the arming press exceeds the threshold, on an element that binds
/// a drag.
pub open spec fn spec_drag_starts(
    st: InteractiveElementState,
    drag_listener: Option<DragListener>,
    active: Option<AnyDrag>,
    ev: MouseMoveEvent,
    phase: DispatchPhase,
    threshold: int,
) -> bool {
    &&& phase == DispatchPhase::Bubble
    &&& st.pending_mouse_down matches Some(down)
    &&& active is None
    &&& spec_distance_squared(ev.position, st.pending_mouse_down->0.position) > threshold
        * threshold
    &&& drag_listener is Some
}

/// The move transition of the click/drag machine: the element state,
/// the drag binding and the active-drag slot after one pointer move.
pub open spec fn spec_move_step(
    st: InteractiveElementState,
    dl: Option<DragListener>,
    drag: Option<AnyDrag>,
    ev: MouseMoveEvent,
    phase: DispatchPhase,
    origin: Point,
    threshold: int,
) -> (InteractiveElementState, Option<DragListener>, Option<AnyDrag>) {
    if spec_drag_starts(st, dl, drag, ev, phase, threshold) {
        (
            InteractiveElementState {
                pending_mouse_down: None,
                clicked_state: ElementClickedState { group: false, element: false },
                ..st
            },
            None,
            Some(
                AnyDrag {
                    value: dl->0.value,
                    value_type: dl->0.value_type,
                    render: dl->0.renderer,
                    cursor_offset: Point {
                        x: (ev.position.x - origin.x) as i64,
                        y: (ev.position.y - origin.y) as i64,
                    },
                },
            ),
        )
    } else {
        (st, dl, drag)
    }
}

/// The capture-pass release transition: the element state after the
/// release and the press it captured, if any.
pub open spec fn spec_up_capture_step(
    st: InteractiveElementState,
    phase: DispatchPhase,
    hovered: bool,
) -> (InteractiveElementState, Option<MouseDownEvent>) {
    if spec_up_captures(st, phase, hovered) {
        (InteractiveElementState { pending_mouse_down: None, ..st }, st.pending_mouse_down)
    } else {
        (st, None)
    }
}

/// Resolve a pointer move against the armed state: start a drag when the
/// displacement exceeds the threshold, the element binds a drag and no
/// drag is active. Starting a drag moves the bound value into the
/// active-drag slot, disarms the element, clears its clicked state and
/// stops further delivery of the move. A drag that is already active is
/// never replaced.
pub fn process_mouse_move_drag(
    state: &mut InteractiveElementState,
    drag_listener: &mut Option<DragListener>,
    cx: &mut Context,
    ev: &MouseMoveEvent,
    phase: DispatchPhase,
    hitbox_origin: Point,
) -> (stop: bool)
    requires
        old(cx).wf(),
        ev.position.wf(),
        hitbox_origin.wf(),
        old(state).pending_mouse_down matches Some(d) ==> d.position.wf(),
    ensures
        stop == spec_drag_starts(
            *old(state),
            *old(drag_listener),
            old(cx).active_drag,
            *ev,
            phase,
            old(cx).drag_threshold as int,
        ),
        stop ==> {
            &&& *final(state) == (InteractiveElementState {
                pending_mouse_down: None,
                clicked_state: ElementClickedState { group: false, element: false },
                ..*old(state)
            })
            &&& *final(drag_listener) is None
            &&& *final(cx) == (Context {
                active_drag: Some(
                    AnyDrag {
                        value: old(drag_listener)->0.value,
                        value_type: old(drag_listener)->0.value_type,
                        render: old(drag_listener)->0.renderer,
                        cursor_offset: Point {
                            x: (ev.position.x - hitbox_origin.x) as i64,
                            y: (ev.position.y - hitbox_origin.y) as i64,
                        },
                    },
                ),
                refresh_requested: true,
                ..*old(cx)
            })
        },
        !stop ==> *final(state) == *old(state) && *final(drag_listener) == *old(drag_listener)
            && *final(cx) == *old(cx),
        old(cx).active_drag is Some ==> final(cx).active_drag == old(cx).active_drag,
        (*final(state), *final(drag_listener), final(cx).active_drag) == spec_move_step(
            *old(state),
            *old(drag_listener),
            old(cx).active_drag,
            *ev,
            phase,
            hitbox_origin,
            old(cx).drag_threshold as int,
        ),
{
    if phase == DispatchPhase::Capture {
        return false;
    }
    let armed = state.pending_mouse_down;
    match armed {
        Some(mouse_down) => {
            if !cx.has_active_drag() {
                let dist = distance_squared(&ev.position, &mouse_down.position);
                let t = cx.drag_threshold;
                proof {
                    assert(0 <= t * t <= 0x400_0000_0000_0000) by (nonlinear_arith)
                        requires
                            0 <= t <= 0x2000_0000,
                    ;
                }
                if dist > t * t {
                    let taken = drag_listener.take();
                    match taken {
                        Some(listener) => {
                            state.clicked_state = ElementClickedState {
                                group: false,
                                element: false,
                            };
                            let cursor_offset = Point {
                                x: ev.position.x - hitbox_origin.x,
                                y: ev.position.y - hitbox_origin.y,
                            };
                            cx.active_drag = Some(
                                AnyDrag {
                                    value: listener.value,
                                    value_type: listener.value_type,
                                    render: listener.renderer,
                                    cursor_offset,
                                },
                            );
                            state.pending_mouse_down = None;
                            cx.refresh();
                            return true;
                        },
                        None => {
                            return false;
                        },
                    }
                }
            }
            false
        },
        None => false,
    }
}

/// Whether a release resolves the armed state: a capture-phase release
/// while armed and hovered.
pub open spec fn spec_up_captures(
    st: InteractiveElementState,
    phase: DispatchPhase,
    hovered: bool,
) -> bool {
    phase == DispatchPhase::Capture && st.pending_mouse_down is Some && hovered
}

/// During the capture pass of a release, take the armed press out of the
/// persistent slot. This runs before any bubble-phase listener, so a
/// listener further up the tree that stops propagation cannot leave
/// stale armed state behind. The caller holds the captured press until
/// the bubble pass fires the click.
pub fn process_mouse_up_capture(
    state: &mut InteractiveElementState,
    cx: &mut Context,
    phase: DispatchPhase,
    hovered: bool,
) -> (captured: Option<MouseDownEvent>)
    ensures
        spec_up_captures(*old(state), phase, hovered) ==> {
            &&& captured == old(state).pending_mouse_down
            &&& *final(state) == (InteractiveElementState {
                pending_mouse_down: None,
                ..*old(state)
            })
            &&& *final(cx) == (Context { refresh_requested: true, ..*old(cx) })
        },
        !spec_up_captures(*old(state), phase, hovered) ==> captured is None && *final(state)
            == *old(state) && *final(cx) == *old(cx),
        (*final(state), captured) == spec_up_capture_step(*old(state), phase, hovered),
{
    if phase == DispatchPhase::Capture && state.pending_mouse_down.is_some() && hovered {
        let captured = state.pending_mouse_down.take();
        cx.refresh();
        captured
    } else {
        None
    }
}

/// During the bubble pass of a release, turn the press captured earlier
/// into the one click event for this gesture.
pub fn click_from_captured(
    captured: Option<MouseDownEvent>,
    ev: &MouseUpEvent,
    phase: DispatchPhase,
) -> (r: Option<ClickEvent>)
    ensures
        r == if phase == DispatchPhase::Bubble && captured is Some {
            Some(ClickEvent { down: captured->0, up: *ev })
        } else {
            None::<ClickEvent>
        },
{
    if phase == DispatchPhase::Bubble {
        match captured {
            Some(down) => Some(ClickEvent { down, up: *ev }),
            None => None,
        }
    } else {
        None
    }
}

/// Whether a press marks the element (or its group) active: a
/// bubble-phase press with default not prevented landing on the element
/// or its group.
pub open spec fn spec_activates(
    phase: DispatchPhase,
    default_prevented: bool,
    group_hovered: bool,
    element_hovered: bool,
) -> bool {
    phase == DispatchPhase::Bubble && !default_prevented && (group_hovered || element_hovered)
}

/// Mark the element and/or its group clicked on a press. Bound during
/// paint only while the element is not already clicked.
pub fn process_mouse_down_activate(
    state: &mut InteractiveElementState,
    cx: &mut Context,
    phase: DispatchPhase,
    default_prevented: bool,
    group_hovered: bool,
    element_hovered: bool,
)
    ensures
        spec_activates(phase, default_prevented, group_hovered, element_hovered) ==> {
            &&& *final(state) == (InteractiveElementState {
                clicked_state: ElementClickedState {
                    group: group_hovered,
                    element: element_hovered,
                },
                ..*old(state)
            })
            &&& *final(cx) == (Context { refresh_requested: true, ..*old(cx) })
        },
        !spec_activates(phase, default_prevented, group_hovered, element_hovered)
            ==> *final(state) == *old(state) && *final(cx) == *old(cx),
{
    if phase == DispatchPhase::Bubble && !default_prevented && (group_hovered
        || element_hovered) {
        state.clicked_state = ElementClickedState { group: group_hovered, element: element_hovered };
        cx.refresh();
    }
}

/// Clear the clicked state on the capture pass of a release. Bound
/// during paint only while the element is clicked.
pub fn process_mouse_up_deactivate(
    state: &mut InteractiveElementState,
    cx: &mut Context,
    phase: DispatchPhase,
)
    ensures
        phase == DispatchPhase::Capture ==> *final(state) == (InteractiveElementState {
            clicked_state: ElementClickedState { group: false, element: false },
            ..*old(state)
        }) && *final(cx) == (Context { refresh_requested: true, ..*old(cx) }),
        phase != DispatchPhase::Capture ==> *final(state) == *old(state) && *final(cx) == *old(
            cx,
        ),
{
    if phase == DispatchPhase::Capture {
        state.clicked_state = ElementClickedState { group: false, element: false };
        cx.refresh();
    }
}

/// The hover boolean reported to a hover listener: hovered with no
/// pending press and no active drag.
pub open spec fn spec_is_hovered_for_listener(
    st: InteractiveElementState,
    cx: Context,
    hovered: bool,
) -> bool {
    st.pending_mouse_down is None && !cx.spec_has_active_drag() && hovered
}

/// Track the hover flag across a pointer move and report a transition:
/// `Some(true)` when hover starts, `Some(false)` when it ends, `None`
/// when nothing changed. The caller fires the element's hover listener
/// with the reported value.
pub fn process_mouse_move_hover(
    state: &mut InteractiveElementState,
    cx: &Context,
    phase: DispatchPhase,
    hovered: bool,
) -> (r: Option<bool>)
    ensures
        ({
            let is_hovered = spec_is_hovered_for_listener(*old(state), *cx, hovered);
            if phase == DispatchPhase::Bubble && is_hovered != old(state).hover_state {
                r == Some(is_hovered) && *final(state) == (InteractiveElementState {
                    hover_state: is_hovered,
                    ..*old(state)
                })
            } else {
                r is None && *final(state) == *old(state)
            }
        }),
{
    if phase != DispatchPhase::Bubble {
        return None;
    }
    let is_hovered = state.pending_mouse_down.is_none() && !cx.has_active_drag() && hovered;
    if is_hovered != state.hover_state {
        state.hover_state = is_hovered;
        Some(is_hovered)
    } else {
        None
    }
}

/// The first drop listener whose payload type matches `ty`, if any.
pub open spec fn spec_first_drop_match(listeners: Seq<DropListener>, ty: u64) -> Option<int> {
    if exists|i: int| 0 <= i < listeners.len() && (#[trigger] listeners[i]).drag_type == ty {
        Some(
            choose|i: int|
                0 <= i < listeners.len() && (#[trigger] listeners[i]).drag_type == ty && forall|
                    j: int,
                |
                    0 <= j < i ==> (#[trigger] listeners[j]).drag_type != ty,
        )
    } else {
        None
    }
}

/// On the bubble pass of a release over a hovered element, find the
/// first drop listener matching the active drag's payload type. The
/// caller then consults its veto predicate and calls
/// [`complete_drop`].
pub fn find_drop_match(
    listeners: &Vec<DropListener>,
    cx: &Context,
    phase: DispatchPhase,
    hovered: bool,
) -> (r: Option<usize>)
    ensures
        ({
            let eligible = phase == DispatchPhase::Bubble && hovered
                && cx.active_drag is Some;
            if eligible {
                match r {
                    Some(i) => 0 <= i < listeners@.len() && listeners@[i as int].drag_type
                        == cx.active_drag->0.value_type && forall|j: int|
                        0 <= j < i ==> (#[trigger] listeners@[j]).drag_type
                            != cx.active_drag->0.value_type,
                    None => forall|j: int|
                        0 <= j < listeners@.len() ==> (#[trigger] listeners@[j]).drag_type
                            != cx.active_drag->0.value_type,
                }
            } else {
                r is None
            }
        }),
{
    if phase != DispatchPhase::Bubble || !hovered {
        return None;
    }
    let ty: u64 = match &cx.active_drag {
        Some(drag) => drag.value_type,
        None => {
            return None;
        },
    };
    let mut i: usize = 0;
    while i < listeners.len()
        invariant
            i <= listeners@.len(),
            cx.active_drag is Some,
            ty == cx.active_drag->0.value_type,
            phase == DispatchPhase::Bubble,
            hovered,
            forall|j: int| 0 <= j < i ==> (#[trigger] listeners@[j]).drag_type != ty,
        decreases listeners@.len() - i,
    {
        if listeners[i].drag_type == ty {
            return Some(i);
        }
        i = i + 1;
    }
    None
}

/// Consume the active drag on a matched drop. The drag leaves the slot
/// whether or not the veto predicate allowed the drop; when allowed, the
/// payload is handed to the drop listener, a repaint is requested and
/// propagation of the release stops.
pub fn complete_drop(cx: &mut Context, can_drop: bool) -> (r: Option<u64>)
    requires
        old(cx).active_drag is Some,
    ensures
        final(cx).active_drag is None,
        can_drop ==> r == Some(old(cx).active_drag->0.value) && *final(cx) == (Context {
            active_drag: None,
            refresh_requested: true,
            ..*old(cx)
        }),
        !can_drop ==> r is None && *final(cx) == (Context { active_drag: None, ..*old(cx) }),
{
    let drag = cx.active_drag.take();
    if can_drop {
        cx.refresh();
        match drag {
            Some(d) => Some(d.value),
            None => None,
        }
    } else {
        None
    }
}

/// Transfer focus on a bubble-phase press that lands on a focusable
/// element, unless an earlier listener prevented the default behavior.
/// Returns whether the default must now be prevented so that a focusable
/// ancestor does not transfer focus again.
pub fn process_focus_mouse_down(
    cx: &mut Context,
    phase: DispatchPhase,
    hovered: bool,
    default_prevented: bool,
    focus_handle: u64,
) -> (prevent_default: bool)
    ensures
        ({
            let fires = phase == DispatchPhase::Bubble && hovered && !default_prevented;
            &&& prevent_default == fires
            &&& fires ==> *final(cx) == (Context { focused: Some(focus_handle), ..*old(cx) })
            &&& !fires ==> *final(cx) == *old(cx)
        }),
{
    if phase == DispatchPhase::Bubble && hovered && !default_prevented {
        cx.focused = Some(focus_handle);
        true
    } else {
        false
    }
}

/// While a drag is active, a fresh press cannot arm a stale click: the
/// frame pipeline clears the armed slot and the clicked flags of every
/// element it lays out while a drag is in progress.
pub fn reset_pending_on_active_drag(state: &mut InteractiveElementState, cx: &Context)
    ensures
        cx.spec_has_active_drag() ==> *final(state) == (InteractiveElementState {
            pending_mouse_down: None,
            clicked_state: ElementClickedState { group: false, element: false },
            ..*old(state)
        }),
        !cx.spec_has_active_drag() ==> *final(state) == *old(state),
{
    if cx.has_active_drag() {
        state.pending_mouse_down = None;
        state.clicked_state = ElementClickedState { group: false, element: false };
    }
}

} // verus!
