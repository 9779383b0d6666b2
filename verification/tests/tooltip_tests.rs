use interactivity::context::Context;
use interactivity::element_state::InteractiveElementState;
use interactivity::events::{DispatchPhase, Modifiers, MouseButton, MouseDownEvent};
use interactivity::geometry::Point;
use interactivity::tooltip::{
    tooltip_on_mouse_down, tooltip_on_mouse_move, tooltip_on_scroll, tooltip_timer_fired,
};

fn new_cx() -> Context {
    Context {
        active_drag: None,
        refresh_requested: false,
        focused: None,
        focus_chain: Vec::new(),
        drag_threshold: 2,
        tooltip_delay: 500,
        next_task_id: 0,
        next_focus_handle: 0,
    }
}

#[test]
fn tooltip_materializes_after_persistent_hover() {
    let mut state = InteractiveElementState::empty();
    let mut cx = new_cx();
    let scheduled =
        tooltip_on_mouse_move(&mut state, &mut cx, DispatchPhase::Bubble, true, false, false, 1000);
    let task = scheduled.expect("hover should schedule a delay task");

    // The task fires before the delay elapsed: nothing materializes.
    let early = tooltip_timer_fired(&mut state, &mut cx, task, 1400, 900, Point { x: 4, y: 4 });
    assert!(!early);
    assert!(state.active_tooltip.unwrap().tooltip.is_none());

    // Hover held; the task fires after the delay: the tooltip shows,
    // remembering the pointer position of that moment.
    let late = tooltip_timer_fired(&mut state, &mut cx, task, 1500, 900, Point { x: 4, y: 4 });
    assert!(late);
    let view = state.active_tooltip.unwrap().tooltip.unwrap();
    assert_eq!(view.render, 900);
    assert_eq!(view.mouse_position, Point { x: 4, y: 4 });
}

#[test]
fn losing_hover_cancels_the_session_for_good() {
    let mut state = InteractiveElementState::empty();
    let mut cx = new_cx();
    let task = tooltip_on_mouse_move(
        &mut state,
        &mut cx,
        DispatchPhase::Bubble,
        true,
        false,
        false,
        1000,
    )
    .unwrap();

    // The pointer leaves before the delay: the slot clears.
    let again =
        tooltip_on_mouse_move(&mut state, &mut cx, DispatchPhase::Bubble, false, false, false, 1200);
    assert_eq!(again, None);
    assert!(state.active_tooltip.is_none());

    // The cancelled task firing later — even past the delay — renders
    // nothing for that hover session.
    let fired = tooltip_timer_fired(&mut state, &mut cx, task, 2000, 900, Point { x: 0, y: 0 });
    assert!(!fired);
    assert!(state.active_tooltip.is_none());

    // A fresh hover gets a fresh task identifier, never the old one.
    let task2 = tooltip_on_mouse_move(
        &mut state,
        &mut cx,
        DispatchPhase::Bubble,
        true,
        false,
        false,
        3000,
    )
    .unwrap();
    assert_ne!(task2, task);
}

#[test]
fn mouse_down_and_scroll_dismiss_the_tooltip() {
    let mut state = InteractiveElementState::empty();
    let mut cx = new_cx();
    let task = tooltip_on_mouse_move(
        &mut state,
        &mut cx,
        DispatchPhase::Bubble,
        true,
        false,
        false,
        0,
    )
    .unwrap();
    tooltip_timer_fired(&mut state, &mut cx, task, 600, 7, Point { x: 1, y: 1 });
    assert!(state.active_tooltip.unwrap().tooltip.is_some());

    tooltip_on_mouse_down(&mut state, &mut cx, false, false);
    assert!(state.active_tooltip.is_none());

    let task2 = tooltip_on_mouse_move(
        &mut state,
        &mut cx,
        DispatchPhase::Bubble,
        true,
        false,
        false,
        1000,
    )
    .unwrap();
    tooltip_timer_fired(&mut state, &mut cx, task2, 1600, 8, Point { x: 1, y: 1 });
    tooltip_on_scroll(&mut state, &mut cx, false, false);
    assert!(state.active_tooltip.is_none());
}

#[test]
fn hoverable_tooltip_survives_while_hovered_itself() {
    let mut state = InteractiveElementState::empty();
    let mut cx = new_cx();
    let task = tooltip_on_mouse_move(
        &mut state,
        &mut cx,
        DispatchPhase::Bubble,
        true,
        false,
        true,
        0,
    )
    .unwrap();
    tooltip_timer_fired(&mut state, &mut cx, task, 600, 7, Point { x: 1, y: 1 });

    // The pointer moves off the element onto the tooltip: a hoverable
    // tooltip stays.
    tooltip_on_mouse_move(&mut state, &mut cx, DispatchPhase::Bubble, false, true, true, 700);
    assert!(state.active_tooltip.unwrap().tooltip.is_some());
    tooltip_on_mouse_down(&mut state, &mut cx, true, true);
    assert!(state.active_tooltip.unwrap().tooltip.is_some());

    // Off both the element and the tooltip: it goes away.
    tooltip_on_mouse_move(&mut state, &mut cx, DispatchPhase::Bubble, false, false, true, 800);
    assert!(state.active_tooltip.is_none());
}

#[test]
fn active_drag_suppresses_tooltip_scheduling() {
    let mut state = InteractiveElementState::empty();
    let mut cx = new_cx();
    cx.active_drag = Some(interactivity::context::AnyDrag {
        value: 1,
        value_type: 2,
        render: 3,
        cursor_offset: Point { x: 0, y: 0 },
    });
    let scheduled =
        tooltip_on_mouse_move(&mut state, &mut cx, DispatchPhase::Bubble, true, false, false, 0);
    assert_eq!(scheduled, None);
    assert!(state.active_tooltip.is_none());
}

#[test]
fn pending_press_suppresses_tooltip_scheduling() {
    let mut state = InteractiveElementState::empty();
    state.pending_mouse_down = Some(MouseDownEvent {
        button: MouseButton::Left,
        position: Point { x: 0, y: 0 },
        modifiers: Modifiers::default(),
        click_count: 1,
    });
    let mut cx = new_cx();
    let scheduled =
        tooltip_on_mouse_move(&mut state, &mut cx, DispatchPhase::Bubble, true, false, false, 0);
    assert_eq!(scheduled, None);
    assert!(state.active_tooltip.is_none());
}
