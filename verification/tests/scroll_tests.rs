use interactivity::geometry::{Bounds, Point, Size};
use interactivity::interaction::{Overflow, OverflowAxes};
use interactivity::scroll::{apply_scroll_wheel, clamp_scroll_offset, ScrollAnchor,
    ScrollHandleState};

fn bounds(x: i64, y: i64, w: i64, h: i64) -> Bounds {
    Bounds { origin: Point { x, y }, size: Size { width: w, height: h } }
}

#[test]
fn clamp_overscrolled_offset_to_max_scroll() {
    // Bounds 0..100 by 0..50, content 400 by 50, no padding: the
    // maximum scroll is (-300, 0). An offset of (-500, 0) clamps to
    // (-300, 0).
    let mut offset = Point { x: -500, y: 0 };
    clamp_scroll_offset(
        &mut offset,
        Size { width: 400, height: 50 },
        Size { width: 0, height: 0 },
        Size { width: 100, height: 50 },
    );
    assert_eq!(offset, Point { x: -300, y: 0 });
}

#[test]
fn clamp_is_zero_when_content_fits() {
    let mut offset = Point { x: -40, y: -7 };
    clamp_scroll_offset(
        &mut offset,
        Size { width: 80, height: 40 },
        Size { width: 10, height: 5 },
        Size { width: 100, height: 50 },
    );
    assert_eq!(offset, Point { x: 0, y: 0 });
}

#[test]
fn clamp_keeps_in_range_offset() {
    let mut offset = Point { x: -120, y: 0 };
    clamp_scroll_offset(
        &mut offset,
        Size { width: 300, height: 50 },
        Size { width: 0, height: 0 },
        Size { width: 100, height: 50 },
    );
    assert_eq!(offset, Point { x: -120, y: 0 });
}

#[test]
fn clamp_includes_padding_in_the_range() {
    let mut offset = Point { x: -250, y: 0 };
    clamp_scroll_offset(
        &mut offset,
        Size { width: 300, height: 50 },
        Size { width: 20, height: 0 },
        Size { width: 100, height: 50 },
    );
    // Max scroll is 300 + 20 - 100 = 220.
    assert_eq!(offset, Point { x: -220, y: 0 });
}

fn three_rows() -> ScrollHandleState {
    let mut st = ScrollHandleState::new();
    st.bounds = bounds(0, 0, 100, 50);
    st.child_bounds = vec![bounds(0, 0, 100, 20), bounds(0, 20, 100, 20), bounds(0, 40, 100, 20)];
    st.overflow = OverflowAxes { x: Overflow::Visible, y: Overflow::Scroll };
    st
}

#[test]
fn top_item_finds_first_child_reaching_the_viewport_top() {
    let mut st = three_rows();
    st.offset = Point { x: 0, y: 0 };
    assert_eq!(st.top_item(), 0);
    st.offset = Point { x: 0, y: -25 };
    assert_eq!(st.top_item(), 1);
    st.offset = Point { x: 0, y: -45 };
    assert_eq!(st.top_item(), 2);
    // Scrolled past everything: clamped to the last child.
    st.offset = Point { x: 0, y: -1000 };
    assert_eq!(st.top_item(), 2);
}

#[test]
fn logical_scroll_top_reports_index_and_subchild_offset() {
    let mut st = three_rows();
    st.offset = Point { x: 0, y: -25 };
    let (ix, off) = st.logical_scroll_top();
    assert_eq!(ix, 1);
    // Child 1 starts at 20; with offset -25 its top sits 5 pixels
    // above the viewport top.
    assert_eq!(off, -5);
}

#[test]
fn scroll_to_item_moves_minimally() {
    let mut st = three_rows();
    st.offset = Point { x: 0, y: 0 };
    // Child 2 spans 40..60 but the viewport ends at 50: scroll up by
    // 10 so its bottom is flush.
    st.scroll_to_item(2);
    assert_eq!(st.offset, Point { x: 0, y: -10 });
    // Already fully visible: nothing moves.
    st.scroll_to_item(2);
    assert_eq!(st.offset, Point { x: 0, y: -10 });
    // Child 0 now pokes above the viewport: scroll back down.
    st.scroll_to_item(0);
    assert_eq!(st.offset, Point { x: 0, y: 0 });
    // An index out of range does nothing.
    st.scroll_to_item(9);
    assert_eq!(st.offset, Point { x: 0, y: 0 });
}

#[test]
fn children_count_and_bounds_for_item() {
    let st = three_rows();
    assert_eq!(st.children_count(), 3);
    assert_eq!(st.bounds_for_item(1), Some(bounds(0, 20, 100, 20)));
    assert_eq!(st.bounds_for_item(3), None);
}

#[test]
fn wheel_moves_scrolling_axis_and_borrows_idle_delta() {
    // Only y scrolls: a pure-x delta is borrowed onto y.
    let overflow = OverflowAxes { x: Overflow::Visible, y: Overflow::Scroll };
    let mut offset = Point { x: 0, y: 0 };
    let changed = apply_scroll_wheel(&mut offset, overflow, true, Point { x: -30, y: 0 });
    assert!(changed);
    assert_eq!(offset, Point { x: 0, y: -30 });

    // Both axes scroll: each takes its own delta.
    let both = OverflowAxes { x: Overflow::Scroll, y: Overflow::Scroll };
    let mut offset2 = Point { x: 0, y: 0 };
    apply_scroll_wheel(&mut offset2, both, true, Point { x: -3, y: -8 });
    assert_eq!(offset2, Point { x: -3, y: -8 });

    // Concurrent scrolling off: only the larger displacement moves.
    let mut offset3 = Point { x: 0, y: 0 };
    apply_scroll_wheel(&mut offset3, both, false, Point { x: -3, y: -8 });
    assert_eq!(offset3, Point { x: 0, y: -8 });

    // No scrolling axis: nothing changes.
    let none = OverflowAxes { x: Overflow::Visible, y: Overflow::Visible };
    let mut offset4 = Point { x: 5, y: 5 };
    let changed4 = apply_scroll_wheel(&mut offset4, none, true, Point { x: -3, y: -8 });
    assert!(!changed4);
    assert_eq!(offset4, Point { x: 5, y: 5 });
}

#[test]
fn top_item_on_unordered_children_stays_in_range() {
    let mut st = three_rows();
    // Children deliberately out of layout order.
    st.child_bounds = vec![bounds(0, 40, 100, 20), bounds(0, 0, 100, 20), bounds(0, 20, 100, 20)];
    st.offset = Point { x: 0, y: -25 };
    let ix = st.top_item();
    assert!(ix < 3);
    let (ix2, _off) = st.logical_scroll_top();
    assert!(ix2 < 3);
}

#[test]
fn scroll_anchor_scrolls_to_its_recorded_origin() {
    let mut st = three_rows();
    let mut anchor = ScrollAnchor::for_handle(3);
    assert_eq!(anchor.handle, 3);
    anchor.last_origin = Point { x: 0, y: 35 };
    anchor.scroll_to(&mut st);
    // The viewport origin is (0,0); the anchored element recorded its
    // origin at (0,35), so the offset becomes (0,-35).
    assert_eq!(st.offset, Point { x: 0, y: -35 });
}

#[test]
fn set_offset_and_logical_request_round_trip() {
    let mut st = three_rows();
    st.set_offset(Point { x: 0, y: -9 });
    assert_eq!(st.offset(), Point { x: 0, y: -9 });
    st.set_logical_scroll_top(2, 4);
    assert_eq!(st.requested_scroll_top, Some((2, 4)));
}
