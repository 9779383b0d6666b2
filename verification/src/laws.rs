//! Laws of the click/drag machine and of the paint pass, proved over
//! the step functions the executable handlers implement.

use crate::context::AnyDrag;
use crate::element_state::InteractiveElementState;
use crate::events::{ClickEvent, DispatchPhase, MouseDownEvent, MouseMoveEvent, MouseUpEvent};
use crate::geometry::{spec_distance_squared, Point};
use crate::gesture::{spec_drag_starts, spec_move_step, spec_up_capture_step, spec_up_captures};
use crate::group::GroupRegistry;
use crate::interaction::DragListener;
use vstd::prelude::*;

verus! {

/// The click/drag machine after a sequence of bubble-pass pointer
/// moves: the element state, the drag binding and the active-drag slot.
pub open spec fn spec_run_moves(
    st: InteractiveElementState,
    dl: Option<DragListener>,
    drag: Option<AnyDrag>,
    moves: Seq<MouseMoveEvent>,
    origin: Point,
    threshold: int,
) -> (InteractiveElementState, Option<DragListener>, Option<AnyDrag>)
    decreases moves.len(),
{
    if moves.len() == 0 {
        (st, dl, drag)
    } else {
        let step = spec_move_step(st, dl, drag, moves[0], DispatchPhase::Bubble, origin, threshold);
        spec_run_moves(step.0, step.1, step.2, moves.drop_first(), origin, threshold)
    }
}

/// At most one drag is active at any time: while a drag is active,
/// no sequence of pointer moves can replace it — every further
/// initiation attempt is rejected and the active drag survives
/// unchanged.
pub proof fn lemma_at_most_one_drag(
    st: InteractiveElementState,
    dl: Option<DragListener>,
    drag: Option<AnyDrag>,
    moves: Seq<MouseMoveEvent>,
    origin: Point,
    threshold: int,
)
    requires
        drag is Some,
    ensures
        spec_run_moves(st, dl, drag, moves, origin, threshold).2 == drag,
    decreases moves.len(),
{
    if moves.len() > 0 {
        let step = spec_move_step(st, dl, drag, moves[0], DispatchPhase::Bubble, origin, threshold);
        assert(!spec_drag_starts(st, dl, drag, moves[0], DispatchPhase::Bubble, threshold));
        lemma_at_most_one_drag(step.0, step.1, step.2, moves.drop_first(), origin, threshold);
    }
}

/// Once a drag has started, the element stays disarmed through any
/// further moves: no later move can re-arm it.
pub proof fn lemma_disarmed_stays_disarmed(
    st: InteractiveElementState,
    dl: Option<DragListener>,
    drag: Option<AnyDrag>,
    moves: Seq<MouseMoveEvent>,
    origin: Point,
    threshold: int,
)
    requires
        st.pending_mouse_down is None,
    ensures
        spec_run_moves(st, dl, drag, moves, origin, threshold).0.pending_mouse_down is None,
    decreases moves.len(),
{
    if moves.len() > 0 {
        let step = spec_move_step(st, dl, drag, moves[0], DispatchPhase::Bubble, origin, threshold);
        lemma_disarmed_stays_disarmed(step.0, step.1, step.2, moves.drop_first(), origin, threshold);
    }
}

/// Drag wins over click. For an element armed by a press, holding a
/// drag binding, with no drag active: if any move of the gesture
/// travels farther than the drag threshold from the press, then after
/// the moves a drag is active and the element is disarmed, so the
/// terminating release — wherever it lands — captures nothing and no
/// click fires.
pub proof fn lemma_drag_precludes_click(
    st: InteractiveElementState,
    dl: Option<DragListener>,
    moves: Seq<MouseMoveEvent>,
    origin: Point,
    threshold: int,
    up_hovered: bool,
)
    requires
        st.pending_mouse_down matches Some(down),
        dl is Some,
        exists|i: int|
            0 <= i < moves.len() && spec_distance_squared(
                (#[trigger] moves[i]).position,
                st.pending_mouse_down->0.position,
            ) > threshold * threshold,
    ensures
        ({
            let run = spec_run_moves(st, dl, None, moves, origin, threshold);
            &&& run.2 is Some
            &&& run.0.pending_mouse_down is None
            &&& !spec_up_captures(run.0, DispatchPhase::Capture, up_hovered)
            &&& spec_up_capture_step(run.0, DispatchPhase::Capture, up_hovered).1 is None
        }),
    decreases moves.len(),
{
    let i = choose|i: int|
        0 <= i < moves.len() && spec_distance_squared(
            (#[trigger] moves[i]).position,
            st.pending_mouse_down->0.position,
        ) > threshold * threshold;
    let step = spec_move_step(st, dl, None, moves[0], DispatchPhase::Bubble, origin, threshold);
    if spec_drag_starts(st, dl, None, moves[0], DispatchPhase::Bubble, threshold) {
        lemma_disarmed_stays_disarmed(
            step.0,
            step.1,
            step.2,
            moves.drop_first(),
            origin,
            threshold,
        );
        lemma_at_most_one_drag(step.0, step.1, step.2, moves.drop_first(), origin, threshold);
    } else {
        // The first move stayed at or under the threshold, so the
        // machine is unchanged and a later move exceeds it.
        assert(step.0 == st && step.1 == dl && step.2 == None::<AnyDrag>);
        assert(i > 0);
        assert(moves.drop_first()[i - 1] == moves[i]);
        lemma_drag_precludes_click(st, dl, moves.drop_first(), origin, threshold, up_hovered);
    }
}

/// Click when the gesture stays put. For an armed element with no drag
/// active: if every move of the gesture stays at or under the drag
/// threshold, the armed press survives all moves, no drag starts, and a
/// release on the element captures exactly the original press, so
/// exactly one click fires, carrying that press and the terminating
/// release.
pub proof fn lemma_click_when_under_threshold(
    st: InteractiveElementState,
    dl: Option<DragListener>,
    moves: Seq<MouseMoveEvent>,
    origin: Point,
    threshold: int,
    up: MouseUpEvent,
)
    requires
        st.pending_mouse_down matches Some(down),
        forall|i: int|
            0 <= i < moves.len() ==> spec_distance_squared(
                (#[trigger] moves[i]).position,
                st.pending_mouse_down->0.position,
            ) <= threshold * threshold,
    ensures
        ({
            let run = spec_run_moves(st, dl, None, moves, origin, threshold);
            let capture = spec_up_capture_step(run.0, DispatchPhase::Capture, true);
            &&& run.0 == st
            &&& run.2 is None
            &&& capture.1 == st.pending_mouse_down
            &&& capture.0.pending_mouse_down is None
            &&& spec_click_of(capture.1, up) == Some(
                ClickEvent { down: st.pending_mouse_down->0, up },
            )
        }),
    decreases moves.len(),
{
    if moves.len() > 0 {
        assert(!spec_drag_starts(st, dl, None, moves[0], DispatchPhase::Bubble, threshold));
        let step = spec_move_step(st, dl, None, moves[0], DispatchPhase::Bubble, origin, threshold);
        assert(forall|i: int|
            0 <= i < moves.drop_first().len() ==> (#[trigger] moves.drop_first()[i])
                == moves[i + 1]);
        lemma_click_when_under_threshold(st, dl, moves.drop_first(), origin, threshold, up);
    }
}

/// The one click event a captured press resolves to on the bubble pass
/// of the release.
pub open spec fn spec_click_of(captured: Option<MouseDownEvent>, up: MouseUpEvent) -> Option<
    ClickEvent,
> {
    if captured is Some {
        Some(ClickEvent { down: captured->0, up })
    } else {
        None
    }
}

/// Named-group push/pop is balanced over a whole paint pass: painting a
/// root leaves every group's stack exactly as it was, so a root painted
/// with every stack empty leaves every stack empty again.
pub proof fn lemma_root_paint_leaves_groups_empty(before: GroupRegistry, after: GroupRegistry)
    requires
        GroupRegistry::spec_same_stacks(after, before),
        before.spec_all_unwound(),
    ensures
        after.spec_all_unwound(),
{
}

} // verus!
