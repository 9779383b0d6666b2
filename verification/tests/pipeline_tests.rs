use interactivity::context::Context;
use interactivity::dispatch::{action_dispatch_plan, dispatch_begin, dispatch_next,
    dispatch_report, dispatch_scroll_wheel, key_dispatch_plan, mouse_dispatch_plan};
use interactivity::element_state::{ActiveTooltip, TooltipView};
use interactivity::events::{DispatchPhase, Modifiers, MouseMoveEvent};
use interactivity::frame::{BoundScroll, ScrollSource};
use interactivity::interaction::{DragMoveEvent, Overflow, OverflowAxes};
use interactivity::scroll::ScrollAnchor;
use interactivity::element_state::{ElementClickedState, StateStore};
use interactivity::elements::div;
use interactivity::events::MouseButton;
use interactivity::frame::Frame;
use interactivity::geometry::{Bounds, Point, Size};
use interactivity::group::GroupRegistry;
use interactivity::hitbox::{hit_test, hit_test_contains};
use interactivity::interaction::{GroupStyle, Interactivity, StyleRefinement};
use interactivity::scroll::ScrollHandleState;
use interactivity::store::Store;
use interactivity::style::{compute_style, StyleLayer};

fn new_cx() -> Context {
    Context {
        active_drag: None,
        refresh_requested: false,
        focused: None,
        focus_chain: Vec::new(),
        drag_threshold: 2,
        tooltip_delay: 500,
        next_task_id: 0,
        next_focus_handle: 0,
    }
}

fn bounds(x: i64, y: i64, w: i64, h: i64) -> Bounds {
    Bounds { origin: Point { x, y }, size: Size { width: w, height: h } }
}

#[test]
fn hover_respects_occlusion() {
    // Two overlapping hitboxes; the one painted later and marked
    // opaque blocks hover on the one behind it.
    let mut frame = Frame::new(Point { x: 10, y: 10 });
    let behind = frame.insert_hitbox(bounds(0, 0, 40, 40), false);
    let front = frame.insert_hitbox(bounds(5, 5, 20, 20), true);
    assert!(frame.is_hovered(front.id));
    assert!(!frame.is_hovered(behind.id));

    // Outside the opaque front box, the back one is hovered again.
    let mut frame2 = Frame::new(Point { x: 30, y: 30 });
    let behind2 = frame2.insert_hitbox(bounds(0, 0, 40, 40), false);
    let front2 = frame2.insert_hitbox(bounds(5, 5, 20, 20), true);
    assert!(!frame2.is_hovered(front2.id));
    assert!(frame2.is_hovered(behind2.id));

    // A transparent front box hides nothing.
    let mut frame3 = Frame::new(Point { x: 10, y: 10 });
    let behind3 = frame3.insert_hitbox(bounds(0, 0, 40, 40), false);
    let front3 = frame3.insert_hitbox(bounds(5, 5, 20, 20), false);
    assert!(frame3.is_hovered(front3.id));
    assert!(frame3.is_hovered(behind3.id));
}

#[test]
fn hit_test_is_topmost_first_and_cut_at_opaque() {
    let hitboxes = vec![
        interactivity::hitbox::Hitbox { id: 0, bounds: bounds(0, 0, 100, 100), opaque: false },
        interactivity::hitbox::Hitbox { id: 1, bounds: bounds(0, 0, 50, 50), opaque: true },
        interactivity::hitbox::Hitbox { id: 2, bounds: bounds(0, 0, 25, 25), opaque: false },
    ];
    let hit = hit_test(&hitboxes, &Point { x: 10, y: 10 });
    assert_eq!(hit, vec![2, 1]);
    assert!(hit_test_contains(&hit, 1));
    assert!(!hit_test_contains(&hit, 0));
}

#[test]
fn group_hover_follows_innermost_pushed_hitbox() {
    // An ancestor and a nested descendant both belong to group "g".
    // The innermost pushed hitbox decides group hover, not the
    // element's own hitbox.
    let mut frame = Frame::new(Point { x: 50, y: 50 });
    let outer = frame.insert_hitbox(bounds(0, 0, 100, 100), false);
    let inner = frame.insert_hitbox(bounds(0, 0, 10, 10), false);
    frame.groups.push(String::from("g"), outer.id);
    frame.groups.push(String::from("g"), inner.id);
    assert_eq!(frame.groups.get(&String::from("g")), Some(inner.id));

    let mut config = Interactivity::new();
    config.group_hover_style =
        Some(GroupStyle { group: String::from("g"), style: StyleRefinement { token: 5 } });
    let cx = new_cx();
    let hit = frame.hit();
    // Pointer at (50,50): inside the outer group hitbox but outside
    // the innermost one — the group hover style does not apply.
    let layers = compute_style(
        &config,
        &cx,
        &frame.groups,
        &hit,
        Some(outer.id),
        ElementClickedState { group: false, element: false },
        false,
    );
    assert!(!layers.contains(&StyleLayer::GroupHover(StyleRefinement { token: 5 })));

    // Pointer at (5,5): inside the innermost — it applies.
    let mut frame2 = Frame::new(Point { x: 5, y: 5 });
    let outer2 = frame2.insert_hitbox(bounds(0, 0, 100, 100), false);
    let inner2 = frame2.insert_hitbox(bounds(0, 0, 10, 10), false);
    frame2.groups.push(String::from("g"), outer2.id);
    frame2.groups.push(String::from("g"), inner2.id);
    let hit2 = frame2.hit();
    let layers2 = compute_style(
        &config,
        &cx,
        &frame2.groups,
        &hit2,
        Some(outer2.id),
        ElementClickedState { group: false, element: false },
        false,
    );
    assert!(layers2.contains(&StyleLayer::GroupHover(StyleRefinement { token: 5 })));
}

#[test]
fn compute_style_orders_layers() {
    let mut config = Interactivity::new();
    config.base_style = StyleRefinement { token: 1 };
    config.hover_style = Some(StyleRefinement { token: 2 });
    config.active_style = Some(StyleRefinement { token: 3 });
    let cx = new_cx();
    let mut frame = Frame::new(Point { x: 5, y: 5 });
    let hb = frame.insert_hitbox(bounds(0, 0, 10, 10), false);
    let hit = frame.hit();
    let layers = compute_style(
        &config,
        &cx,
        &frame.groups,
        &hit,
        Some(hb.id),
        ElementClickedState { group: false, element: true },
        false,
    );
    assert_eq!(
        layers,
        vec![
            StyleLayer::Base(StyleRefinement { token: 1 }),
            StyleLayer::Hover(StyleRefinement { token: 2 }),
            StyleLayer::Active(StyleRefinement { token: 3 }),
        ]
    );
}

#[test]
fn group_stacks_balance_and_groups_registry_round_trips() {
    let mut groups = GroupRegistry::new();
    groups.push(String::from("g"), 1);
    groups.push(String::from("g"), 2);
    groups.push(String::from("h"), 9);
    assert_eq!(groups.get(&String::from("g")), Some(2));
    assert_eq!(groups.get(&String::from("h")), Some(9));
    groups.pop(&String::from("g"));
    assert_eq!(groups.get(&String::from("g")), Some(1));
    groups.pop(&String::from("g"));
    assert_eq!(groups.get(&String::from("g")), None);
    assert_eq!(groups.get(&String::from("h")), Some(9));
    assert_eq!(groups.get(&String::from("missing")), None);
}

#[test]
fn full_paint_pass_unwinds_every_group() {
    // A grouped parent with a grouped child: after painting the root,
    // every group's identity stack is empty again.
    let mut child = div().group(String::from("inner"));
    child.interactivity.hover_style = Some(StyleRefinement { token: 4 });
    child.bounds = bounds(10, 10, 20, 20);
    let mut root = div().group(String::from("outer")).child(child);
    root.interactivity.hover_style = Some(StyleRefinement { token: 3 });
    root.bounds = bounds(0, 0, 100, 100);

    let mut store = StateStore::new();
    let mut scrolls: Store<ScrollHandleState> = Store::new();
    let mut cx = new_cx();
    let mut frame = Frame::new(Point { x: 15, y: 15 });

    let mut layout_styles = Vec::new();
    root.request_layout(&mut store, &mut cx, &frame, &mut layout_styles);
    assert_eq!(layout_styles.len(), 2);

    root.prepaint(&mut store, &mut scrolls, &mut frame);
    assert_eq!(frame.hitboxes.len(), 2);

    let mut paint_styles = Vec::new();
    root.paint(&store, &mut frame, &cx, &mut paint_styles);
    assert_eq!(paint_styles.len(), 2);

    assert_eq!(frame.groups.get(&String::from("outer")), None);
    assert_eq!(frame.groups.get(&String::from("inner")), None);

    // Both elements bound their pointer reactions against their
    // hitboxes.
    assert_eq!(frame.gestures.len(), 2);
}

#[test]
fn group_active_binding_resolves_innermost_at_paint_time() {
    // A press on a member of a named group marks the group active based
    // on the innermost pushed hitbox for that name at the moment the
    // member painted, not the member's own hitbox.
    let mut frame = Frame::new(Point { x: 5, y: 5 });
    let outer = frame.insert_hitbox(bounds(0, 0, 100, 100), false);
    let inner = frame.insert_hitbox(bounds(0, 0, 10, 10), false);
    let own = frame.insert_hitbox(bounds(20, 20, 10, 10), false);
    frame.groups.push(String::from("g"), outer.id);
    frame.groups.push(String::from("g"), inner.id);

    let mut config = Interactivity::new();
    config.element_id = Some(3);
    config.group_active_style =
        Some(GroupStyle { group: String::from("g"), style: StyleRefinement { token: 9 } });
    config.on_click(1);
    let store = StateStore::new();
    let cx = new_cx();
    let _ = config.paint(&store, &mut frame, &cx, Some(&own), false);
    let gesture = frame.gestures.last().unwrap();
    assert_eq!(gesture.group_active_hitbox, Some(inner.id));
    assert_ne!(gesture.group_active_hitbox, Some(own.id));
}

#[test]
fn pipeline_creates_hitbox_only_when_needed() {
    // A plain container with no listeners, styles or bindings needs no
    // hitbox.
    let mut plain = div();
    plain.bounds = bounds(0, 0, 10, 10);
    let mut store = StateStore::new();
    let mut scrolls: Store<ScrollHandleState> = Store::new();
    let mut cx = new_cx();
    let mut frame = Frame::new(Point { x: 1, y: 1 });
    let mut styles = Vec::new();
    plain.request_layout(&mut store, &mut cx, &frame, &mut styles);
    plain.prepaint(&mut store, &mut scrolls, &mut frame);
    assert!(plain.hitbox.is_none());
    assert_eq!(frame.hitboxes.len(), 0);

    // Adding a click listener (and an identity) makes it need one.
    let mut interactive = div().id(7).element;
    interactive.bounds = bounds(0, 0, 10, 10);
    interactive.interactivity.on_click(42);
    interactive.request_layout(&mut store, &mut cx, &frame, &mut styles);
    interactive.prepaint(&mut store, &mut scrolls, &mut frame);
    assert!(interactive.hitbox.is_some());
    assert_eq!(frame.hitboxes.len(), 1);
}

#[test]
fn scroll_tracked_prepaint_records_children_and_clamps() {
    let mut c0 = div();
    c0.bounds = bounds(0, 0, 100, 40);
    let mut c1 = div();
    c1.bounds = bounds(0, 40, 100, 40);
    let mut c2 = div();
    c2.bounds = bounds(0, 80, 100, 40);
    let mut root = div().child(c0).child(c1).child(c2);
    root.bounds = bounds(0, 0, 100, 50);
    root.interactivity.tracked_scroll_handle = Some(3);
    root.interactivity.base_overflow.y = interactivity::interaction::Overflow::Scroll;

    let mut store = StateStore::new();
    let mut scrolls: Store<ScrollHandleState> = Store::new();
    let mut pre = ScrollHandleState::new();
    pre.offset = Point { x: 0, y: -500 };
    scrolls.set(3, pre);

    let mut cx = new_cx();
    let mut frame = Frame::new(Point { x: 1, y: 1 });
    let mut styles = Vec::new();
    root.request_layout(&mut store, &mut cx, &frame, &mut styles);
    root.prepaint(&mut store, &mut scrolls, &mut frame);

    let st = scrolls.take(3).unwrap();
    // Content is 120 tall in a 50-tall viewport: the overscrolled
    // offset clamps to -70.
    assert_eq!(st.offset, Point { x: 0, y: -70 });
    assert_eq!(st.child_bounds.len(), 3);
    assert_eq!(st.bounds, bounds(0, 0, 100, 50));
}

#[test]
fn pending_logical_scroll_request_is_consumed_by_prepaint() {
    let mut c0 = div();
    c0.bounds = bounds(0, 0, 100, 40);
    let mut c1 = div();
    c1.bounds = bounds(0, 40, 100, 40);
    let mut root = div().child(c0).child(c1);
    root.bounds = bounds(0, 0, 100, 50);
    root.interactivity.tracked_scroll_handle = Some(4);
    root.interactivity.base_overflow.y = interactivity::interaction::Overflow::Scroll;

    let mut store = StateStore::new();
    let mut scrolls: Store<ScrollHandleState> = Store::new();
    let mut pre = ScrollHandleState::new();
    pre.set_logical_scroll_top(1, 10);
    scrolls.set(4, pre);

    let mut cx = new_cx();
    let mut frame = Frame::new(Point { x: 1, y: 1 });
    let mut styles = Vec::new();
    root.request_layout(&mut store, &mut cx, &frame, &mut styles);
    root.prepaint(&mut store, &mut scrolls, &mut frame);

    let st = scrolls.take(4).unwrap();
    // Scroll to child 1 at pixel offset 10: offset becomes
    // origin - (child origin - (0, 10)) = (0, -30), within the
    // clamp range (content 80, viewport 50).
    assert_eq!(st.offset, Point { x: 0, y: -30 });
    assert_eq!(st.requested_scroll_top, None);
}

#[test]
fn dispatch_plan_runs_capture_then_bubble_without_repeats() {
    let mut frame = Frame::new(Point { x: 5, y: 5 });
    let hb = frame.insert_hitbox(bounds(0, 0, 10, 10), false);
    let mut config = Interactivity::new();
    config.on_mouse_down(MouseButton::Left, 100);
    config.capture_any_mouse_down(101);
    config.on_any_mouse_down(102);
    config.on_mouse_down_out(103);
    let store = StateStore::new();
    let cx = new_cx();
    let _ = config.paint(&store, &mut frame, &cx, Some(&hb), false);

    let hit = frame.hit();
    let plan = mouse_dispatch_plan(
        &frame.mouse_down_listeners,
        Some(MouseButton::Left),
        &frame,
        &hit,
        &cx,
    );
    // Capture pass first in bind order: the capture-any listener (the
    // pointer is inside, so the outside-bounds one stays silent); then
    // the bubble pass in reverse bind order.
    assert_eq!(plan.len(), 3);
    assert_eq!(frame.mouse_down_listeners[plan[0]].listener.handler, 101);
    assert_eq!(frame.mouse_down_listeners[plan[1]].listener.handler, 102);
    assert_eq!(frame.mouse_down_listeners[plan[2]].listener.handler, 100);

    // With the pointer outside, only the outside-bounds capture
    // listener fires.
    let mut frame_out = Frame::new(Point { x: 50, y: 50 });
    let hb_out = frame_out.insert_hitbox(bounds(0, 0, 10, 10), false);
    let mut config_out = Interactivity::new();
    config_out.on_mouse_down(MouseButton::Left, 100);
    config_out.capture_any_mouse_down(101);
    config_out.on_any_mouse_down(102);
    config_out.on_mouse_down_out(103);
    let _ = config_out.paint(&store, &mut frame_out, &cx, Some(&hb_out), false);
    let hit_out = frame_out.hit();
    let plan_out = mouse_dispatch_plan(
        &frame_out.mouse_down_listeners,
        Some(MouseButton::Left),
        &frame_out,
        &hit_out,
        &cx,
    );
    assert_eq!(plan_out.len(), 1);
    assert_eq!(frame_out.mouse_down_listeners[plan_out[0]].listener.handler, 103);
}

#[test]
fn stopping_propagation_halts_delivery() {
    let mut frame = Frame::new(Point { x: 5, y: 5 });
    let hb = frame.insert_hitbox(bounds(0, 0, 10, 10), false);
    let mut config = Interactivity::new();
    config.capture_any_mouse_down(101);
    config.on_any_mouse_down(102);
    config.on_mouse_down(MouseButton::Left, 100);
    let store = StateStore::new();
    let cx = new_cx();
    let _ = config.paint(&store, &mut frame, &cx, Some(&hb), false);
    let hit = frame.hit();

    // Without a stop, the cursor walks the capture pass then the
    // bubble pass in reverse bind order, each listener once.
    let mut cur = dispatch_begin(frame.mouse_down_listeners.len());
    let mut fired = Vec::new();
    while let Some(ix) = dispatch_next(
        &mut cur,
        &frame.mouse_down_listeners,
        Some(MouseButton::Left),
        &frame,
        &hit,
        &cx,
    ) {
        fired.push(frame.mouse_down_listeners[ix].listener.handler);
        dispatch_report(&mut cur, false, false);
    }
    assert_eq!(fired, vec![101, 100, 102]);

    // A stop during the capture pass suppresses everything after it,
    // including the whole bubble pass.
    let mut cur2 = dispatch_begin(frame.mouse_down_listeners.len());
    let first = dispatch_next(
        &mut cur2,
        &frame.mouse_down_listeners,
        Some(MouseButton::Left),
        &frame,
        &hit,
        &cx,
    )
    .unwrap();
    assert_eq!(frame.mouse_down_listeners[first].listener.handler, 101);
    dispatch_report(&mut cur2, true, false);
    let next = dispatch_next(
        &mut cur2,
        &frame.mouse_down_listeners,
        Some(MouseButton::Left),
        &frame,
        &hit,
        &cx,
    );
    assert_eq!(next, None);
}

#[test]
fn action_and_key_plans_follow_the_phase_model() {
    let mut config = Interactivity::new();
    config.on_action(7, 200);
    config.capture_action(7, 201);
    config.on_action(8, 202);
    config.on_boxed_action(7, 203);
    config.capture_key_down(301);
    config.on_key_down(302);
    config.on_key_down(303);

    // Dispatching an action of type 7: its capture listener first,
    // then its bubble listeners in reverse declaration order; the
    // type-8 listener stays silent.
    let plan = action_dispatch_plan(&config.action_listeners, 7);
    let handlers: Vec<u64> =
        plan.iter().map(|ix| config.action_listeners[*ix].handler).collect();
    assert_eq!(handlers, vec![201, 203, 200]);
    assert_eq!(action_dispatch_plan(&config.action_listeners, 9), Vec::<usize>::new());

    // Key events have no type filter: capture listeners in order, then
    // bubble listeners reversed.
    let key_plan = key_dispatch_plan(&config.key_down_listeners);
    let key_handlers: Vec<u64> =
        key_plan.iter().map(|ix| config.key_down_listeners[*ix].handler).collect();
    assert_eq!(key_handlers, vec![301, 303, 302]);
}

#[test]
fn paint_without_hitbox_clears_the_hover_flag() {
    let mut frame = Frame::new(Point { x: 5, y: 5 });
    let mut config = Interactivity::new();
    config.hovered = Some(true);
    let store = StateStore::new();
    let cx = new_cx();
    let _ = config.paint(&store, &mut frame, &cx, None, false);
    assert_eq!(config.hovered, None);

    let hb = frame.insert_hitbox(bounds(0, 0, 10, 10), false);
    let mut config2 = Interactivity::new();
    let _ = config2.paint(&store, &mut frame, &cx, Some(&hb), false);
    assert_eq!(config2.hovered, Some(true));
}

#[test]
fn wheel_binding_fires_on_bubble_while_hovered() {
    let mut frame = Frame::new(Point { x: 5, y: 5 });
    let hb = frame.insert_hitbox(bounds(0, 0, 10, 10), false);
    let binding = BoundScroll {
        hitbox: hb.id,
        source: ScrollSource::Handle(3),
        overflow: OverflowAxes { x: Overflow::Visible, y: Overflow::Scroll },
        allow_concurrent_scroll: true,
    };
    let mut store = StateStore::new();
    let mut scrolls: Store<ScrollHandleState> = Store::new();
    scrolls.set(3, ScrollHandleState::new());
    let mut cx = new_cx();
    let hit = frame.hit();

    // Capture pass: nothing fires.
    let stop = dispatch_scroll_wheel(
        &binding,
        &mut store,
        &mut scrolls,
        &mut cx,
        &frame,
        &hit,
        DispatchPhase::Capture,
        Point { x: 0, y: -12 },
    );
    assert!(!stop);
    assert_eq!(scrolls.take(3).unwrap().offset, Point { x: 0, y: 0 });
    scrolls.set(3, ScrollHandleState::new());

    // Bubble pass while hovered: the offset moves, propagation stops,
    // a repaint is requested.
    let stop2 = dispatch_scroll_wheel(
        &binding,
        &mut store,
        &mut scrolls,
        &mut cx,
        &frame,
        &hit,
        DispatchPhase::Bubble,
        Point { x: 0, y: -12 },
    );
    assert!(stop2);
    assert!(cx.refresh_requested);
    assert_eq!(scrolls.take(3).unwrap().offset, Point { x: 0, y: -12 });

    // Not hovered: nothing fires.
    let mut frame_out = Frame::new(Point { x: 50, y: 50 });
    let hb_out = frame_out.insert_hitbox(bounds(0, 0, 10, 10), false);
    let binding_out = BoundScroll { hitbox: hb_out.id, ..binding };
    scrolls.set(3, ScrollHandleState::new());
    let hit_out = frame_out.hit();
    let stop3 = dispatch_scroll_wheel(
        &binding_out,
        &mut store,
        &mut scrolls,
        &mut cx,
        &frame_out,
        &hit_out,
        DispatchPhase::Bubble,
        Point { x: 0, y: -12 },
    );
    assert!(!stop3);
    assert_eq!(scrolls.take(3).unwrap().offset, Point { x: 0, y: 0 });
}

#[test]
fn wheel_binding_moves_an_element_state_cell() {
    let mut frame = Frame::new(Point { x: 5, y: 5 });
    let hb = frame.insert_hitbox(bounds(0, 0, 10, 10), false);
    let binding = BoundScroll {
        hitbox: hb.id,
        source: ScrollSource::Element(9),
        overflow: OverflowAxes { x: Overflow::Scroll, y: Overflow::Scroll },
        allow_concurrent_scroll: true,
    };
    let mut store = StateStore::new();
    let mut scrolls: Store<ScrollHandleState> = Store::new();
    let mut cx = new_cx();
    let hit = frame.hit();
    let stop = dispatch_scroll_wheel(
        &binding,
        &mut store,
        &mut scrolls,
        &mut cx,
        &frame,
        &hit,
        DispatchPhase::Bubble,
        Point { x: -4, y: -6 },
    );
    assert!(stop);
    assert_eq!(store.get(9).scroll_offset, Some(Point { x: -4, y: -6 }));
}

#[test]
fn drag_move_event_carries_bounds_and_the_move() {
    let hb = interactivity::hitbox::Hitbox { id: 4, bounds: bounds(2, 3, 10, 10), opaque: false };
    let mv = MouseMoveEvent {
        position: Point { x: 7, y: 8 },
        pressed_button: Some(MouseButton::Left),
        modifiers: Modifiers::default(),
    };
    let ev = DragMoveEvent::new(&mv, &hb, 11);
    assert_eq!(ev.event, mv);
    assert_eq!(ev.bounds, bounds(2, 3, 10, 10));
    assert_eq!(ev.drag_type, 11);
}

#[test]
fn prepaint_registers_focus_tooltip_and_anchor() {
    let mut d = div().id(6).element;
    d.bounds = bounds(10, 20, 30, 30);
    d.interactivity.focusable = true;
    d.interactivity.tracked_focus_handle = Some(41);
    d.interactivity.scroll_anchor = Some(ScrollAnchor::for_handle(3));
    d.interactivity.on_click(1);

    let mut store = StateStore::new();
    let mut st = store.get(6);
    st.active_tooltip = Some(ActiveTooltip {
        tooltip: Some(TooltipView { render: 77, mouse_position: Point { x: 1, y: 1 } }),
        task: None,
    });
    store.set(6, st);

    let mut scrolls: Store<ScrollHandleState> = Store::new();
    let mut cx = new_cx();
    let mut frame = Frame::new(Point { x: 1, y: 1 });
    let mut styles = Vec::new();
    d.request_layout(&mut store, &mut cx, &frame, &mut styles);
    d.prepaint(&mut store, &mut scrolls, &mut frame);

    assert_eq!(frame.focus_registrations, vec![41]);
    assert_eq!(frame.tooltips.len(), 1);
    assert_eq!(frame.tooltips[0].render, 77);
    assert_eq!(d.interactivity.tooltip_id, Some(0));
    assert_eq!(
        d.interactivity.scroll_anchor.unwrap().last_origin,
        Point { x: 10, y: 20 }
    );
}

#[test]
fn paint_registers_the_key_context() {
    let mut frame = Frame::new(Point { x: 5, y: 5 });
    let mut config = Interactivity::new();
    config.key_context = Some(13);
    let store = StateStore::new();
    let cx = new_cx();
    let _ = config.paint(&store, &mut frame, &cx, None, false);
    assert_eq!(frame.key_context_registrations, vec![13]);
}

#[test]
fn paint_drains_listeners_so_they_bind_once() {
    let mut frame = Frame::new(Point { x: 5, y: 5 });
    let hb = frame.insert_hitbox(bounds(0, 0, 10, 10), false);
    let mut config = Interactivity::new();
    config.on_mouse_up(MouseButton::Left, 7);
    config.on_scroll_wheel(8);
    config.on_key_down(9);
    let store = StateStore::new();
    let cx = new_cx();
    let _ = config.paint(&store, &mut frame, &cx, Some(&hb), false);
    assert_eq!(frame.mouse_up_listeners.len(), 1);
    assert_eq!(frame.scroll_wheel_listeners.len(), 1);
    assert_eq!(frame.key_down_listeners.len(), 1);

    // A second paint of the same configuration binds nothing more.
    let _ = config.paint(&store, &mut frame, &cx, Some(&hb), false);
    assert_eq!(frame.mouse_up_listeners.len(), 1);
    assert_eq!(frame.scroll_wheel_listeners.len(), 1);
    assert_eq!(frame.key_down_listeners.len(), 1);
}
