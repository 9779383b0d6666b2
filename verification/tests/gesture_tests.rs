use interactivity::context::Context;
use interactivity::element_state::InteractiveElementState;
use interactivity::events::{
    ClickEvent, DispatchPhase, Modifiers, MouseButton, MouseDownEvent, MouseMoveEvent,
    MouseUpEvent,
};
use interactivity::gesture::{
    click_from_captured, complete_drop, find_drop_match, process_focus_mouse_down,
    process_mouse_down_activate, process_mouse_down_arm, process_mouse_move_drag,
    process_mouse_move_hover, process_mouse_up_capture, process_mouse_up_deactivate,
    reset_pending_on_active_drag,
};
use interactivity::geometry::Point;
use interactivity::interaction::{DragListener, DropListener};

fn new_cx() -> Context {
    Context {
        active_drag: None,
        refresh_requested: false,
        focused: None,
        focus_chain: Vec::new(),
        drag_threshold: 2,
        tooltip_delay: 500,
        next_task_id: 0,
        next_focus_handle: 0,
    }
}

fn down_at(x: i64, y: i64) -> MouseDownEvent {
    MouseDownEvent {
        button: MouseButton::Left,
        position: Point { x, y },
        modifiers: Modifiers::default(),
        click_count: 1,
    }
}

fn up_at(x: i64, y: i64) -> MouseUpEvent {
    MouseUpEvent {
        button: MouseButton::Left,
        position: Point { x, y },
        modifiers: Modifiers::default(),
        click_count: 1,
    }
}

fn move_at(x: i64, y: i64) -> MouseMoveEvent {
    MouseMoveEvent {
        position: Point { x, y },
        pressed_button: Some(MouseButton::Left),
        modifiers: Modifiers::default(),
    }
}

fn drag_binding() -> DragListener {
    DragListener { value: 41, value_type: 9, renderer: 77 }
}

#[test]
fn small_displacement_click_fires_once() {
    // A press at (10,10) on a hitbox spanning (0,0)-(20,20), then a
    // release at (11,11): displacement stays under the threshold, so
    // exactly one click fires with both the press and the release.
    let mut state = InteractiveElementState::empty();
    let mut cx = new_cx();
    let down = down_at(10, 10);
    process_mouse_down_arm(&mut state, &mut cx, &down, DispatchPhase::Bubble, true);
    assert_eq!(state.pending_mouse_down, Some(down));

    let mut dl = Some(drag_binding());
    let mv = move_at(11, 11);
    let stop = process_mouse_move_drag(
        &mut state,
        &mut dl,
        &mut cx,
        &mv,
        DispatchPhase::Bubble,
        Point { x: 0, y: 0 },
    );
    assert!(!stop);
    assert!(cx.active_drag.is_none());
    assert_eq!(state.pending_mouse_down, Some(down));

    let up = up_at(11, 11);
    let captured = process_mouse_up_capture(&mut state, &mut cx, DispatchPhase::Capture, true);
    assert_eq!(captured, Some(down));
    let click = click_from_captured(captured, &up, DispatchPhase::Bubble);
    assert_eq!(click, Some(ClickEvent { down, up }));

    // The armed slot was consumed: a second release captures nothing.
    let captured2 = process_mouse_up_capture(&mut state, &mut cx, DispatchPhase::Capture, true);
    assert_eq!(captured2, None);
    assert_eq!(click_from_captured(captured2, &up, DispatchPhase::Bubble), None);
}

#[test]
fn large_displacement_starts_drag_and_suppresses_click() {
    // Same press, then a move to (15,15): squared displacement 50
    // exceeds the squared threshold 4, so a drag starts and no click
    // fires even though the release lands inside the hitbox.
    let mut state = InteractiveElementState::empty();
    let mut cx = new_cx();
    let down = down_at(10, 10);
    process_mouse_down_arm(&mut state, &mut cx, &down, DispatchPhase::Bubble, true);

    let mut dl = Some(drag_binding());
    let mv = move_at(15, 15);
    let stop = process_mouse_move_drag(
        &mut state,
        &mut dl,
        &mut cx,
        &mv,
        DispatchPhase::Bubble,
        Point { x: 0, y: 0 },
    );
    assert!(stop);
    assert!(dl.is_none());
    let drag = cx.active_drag.expect("a drag should be active");
    assert_eq!(drag.value, 41);
    assert_eq!(drag.value_type, 9);
    assert_eq!(drag.render, 77);
    assert_eq!(drag.cursor_offset, Point { x: 15, y: 15 });
    assert!(state.pending_mouse_down.is_none());

    let up = up_at(12, 12);
    let captured = process_mouse_up_capture(&mut state, &mut cx, DispatchPhase::Capture, true);
    assert_eq!(captured, None);
    assert_eq!(click_from_captured(captured, &up, DispatchPhase::Bubble), None);
}

#[test]
fn second_drag_initiation_is_rejected() {
    // While a drag is active, a fresh gesture past the threshold does
    // not replace it and the original drag survives unchanged.
    let mut state = InteractiveElementState::empty();
    let mut cx = new_cx();
    process_mouse_down_arm(&mut state, &mut cx, &down_at(0, 0), DispatchPhase::Bubble, true);
    let mut dl = Some(drag_binding());
    let started = process_mouse_move_drag(
        &mut state,
        &mut dl,
        &mut cx,
        &move_at(9, 9),
        DispatchPhase::Bubble,
        Point { x: 0, y: 0 },
    );
    assert!(started);
    let first = cx.active_drag;

    let mut other_state = InteractiveElementState::empty();
    let mut other_dl = Some(DragListener { value: 100, value_type: 8, renderer: 1 });
    process_mouse_down_arm(&mut other_state, &mut cx, &down_at(50, 50), DispatchPhase::Bubble, true);
    let started_again = process_mouse_move_drag(
        &mut other_state,
        &mut other_dl,
        &mut cx,
        &move_at(90, 90),
        DispatchPhase::Bubble,
        Point { x: 50, y: 50 },
    );
    assert!(!started_again);
    assert!(other_dl.is_some());
    assert_eq!(cx.active_drag, first);
}

#[test]
fn capture_phase_does_not_arm_or_drag() {
    let mut state = InteractiveElementState::empty();
    let mut cx = new_cx();
    process_mouse_down_arm(&mut state, &mut cx, &down_at(1, 1), DispatchPhase::Capture, true);
    assert!(state.pending_mouse_down.is_none());
    process_mouse_down_arm(&mut state, &mut cx, &down_at(1, 1), DispatchPhase::Bubble, false);
    assert!(state.pending_mouse_down.is_none());

    process_mouse_down_arm(&mut state, &mut cx, &down_at(1, 1), DispatchPhase::Bubble, true);
    let mut dl = Some(drag_binding());
    let stop = process_mouse_move_drag(
        &mut state,
        &mut dl,
        &mut cx,
        &move_at(90, 90),
        DispatchPhase::Capture,
        Point { x: 0, y: 0 },
    );
    assert!(!stop);
    assert!(cx.active_drag.is_none());
    assert!(state.pending_mouse_down.is_some());
}

#[test]
fn press_while_drag_active_clears_stale_state() {
    let mut state = InteractiveElementState::empty();
    state.pending_mouse_down = Some(down_at(3, 3));
    state.clicked_state.element = true;
    let mut cx = new_cx();
    cx.active_drag = Some(interactivity::context::AnyDrag {
        value: 1,
        value_type: 2,
        render: 3,
        cursor_offset: Point { x: 0, y: 0 },
    });
    reset_pending_on_active_drag(&mut state, &cx);
    assert!(state.pending_mouse_down.is_none());
    assert!(!state.clicked_state.element && !state.clicked_state.group);
}

#[test]
fn hover_listener_sees_transitions_only() {
    let mut state = InteractiveElementState::empty();
    let cx = new_cx();
    assert_eq!(
        process_mouse_move_hover(&mut state, &cx, DispatchPhase::Bubble, true),
        Some(true)
    );
    assert_eq!(process_mouse_move_hover(&mut state, &cx, DispatchPhase::Bubble, true), None);
    assert_eq!(
        process_mouse_move_hover(&mut state, &cx, DispatchPhase::Bubble, false),
        Some(false)
    );
    // A pending press suppresses hover.
    state.pending_mouse_down = Some(down_at(0, 0));
    assert_eq!(process_mouse_move_hover(&mut state, &cx, DispatchPhase::Bubble, true), None);
}

#[test]
fn drop_matches_payload_type_and_veto() {
    let mut cx = new_cx();
    cx.active_drag = Some(interactivity::context::AnyDrag {
        value: 55,
        value_type: 9,
        render: 1,
        cursor_offset: Point { x: 0, y: 0 },
    });
    let listeners = vec![
        DropListener { drag_type: 4, handler: 10 },
        DropListener { drag_type: 9, handler: 11 },
        DropListener { drag_type: 9, handler: 12 },
    ];
    let m = find_drop_match(&listeners, &cx, DispatchPhase::Bubble, true);
    assert_eq!(m, Some(1));
    assert_eq!(find_drop_match(&listeners, &cx, DispatchPhase::Capture, true), None);
    assert_eq!(find_drop_match(&listeners, &cx, DispatchPhase::Bubble, false), None);

    // An allowed drop hands out the payload and consumes the drag.
    let fired = complete_drop(&mut cx, true);
    assert_eq!(fired, Some(55));
    assert!(cx.active_drag.is_none());
    assert!(cx.refresh_requested);

    // A vetoed drop still consumes the drag but fires nothing.
    let mut cx2 = new_cx();
    cx2.active_drag = Some(interactivity::context::AnyDrag {
        value: 56,
        value_type: 9,
        render: 1,
        cursor_offset: Point { x: 0, y: 0 },
    });
    let fired2 = complete_drop(&mut cx2, false);
    assert_eq!(fired2, None);
    assert!(cx2.active_drag.is_none());
    assert!(!cx2.refresh_requested);
}

#[test]
fn focus_click_transfers_focus_and_prevents_default() {
    let mut cx = new_cx();
    let prevent = process_focus_mouse_down(&mut cx, DispatchPhase::Bubble, true, false, 17);
    assert!(prevent);
    assert_eq!(cx.focused, Some(17));
    // With default already prevented, a focusable ancestor does not
    // steal focus back.
    let prevent2 = process_focus_mouse_down(&mut cx, DispatchPhase::Bubble, true, true, 18);
    assert!(!prevent2);
    assert_eq!(cx.focused, Some(17));
}

#[test]
fn activate_and_deactivate_clicked_state() {
    let mut state = InteractiveElementState::empty();
    let mut cx = new_cx();
    process_mouse_down_activate(&mut state, &mut cx, DispatchPhase::Bubble, false, true, true);
    assert!(state.clicked_state.group && state.clicked_state.element);
    process_mouse_up_deactivate(&mut state, &mut cx, DispatchPhase::Capture, );
    assert!(!state.clicked_state.group && !state.clicked_state.element);
}
