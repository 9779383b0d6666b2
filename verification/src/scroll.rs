//! Scroll state: a shared offset, the container and per-child bounds
//! recorded during prepaint, and logical scroll positions.
//!
//! The offset is clamped on every prepaint to
//! `[-max(0, content + padding - bounds), 0]` per axis, so scrolling can
//! never reveal space beyond the content and never scrolls a fitting
//! child list at all.

use crate::geometry::{clamp_i64, max_i64, spec_clamp, Bounds, Point, Size};
use crate::interaction::{Overflow, OverflowAxes};
use vstd::prelude::*;

verus! {

/// The scroll state addressed by a caller-held handle: offset, container
/// bounds, ordered child bounds, and an optional pending logical scroll
/// request consumed on the next prepaint.
#[derive(Clone, Debug)]
pub struct ScrollHandleState {
    /// Distance from the container's top left to the first child's top
    /// left; scrolling down makes it more negative.
    pub offset: Point,
    /// The container bounds recorded during prepaint.
    pub bounds: Bounds,
    /// The bounds of each child, in child order, recorded during
    /// prepaint.
    pub child_bounds: Vec<Bounds>,
    /// A pending "scroll to child at pixel offset" request, consumed by
    /// the next prepaint.
    pub requested_scroll_top: Option<(usize, i64)>,
    /// Overflow behavior recorded from the element's style.
    pub overflow: OverflowAxes,
}

/// Per-axis upper bound on how far content can be scrolled: how much the
/// content plus padding overhangs the bounds, floored at zero.
pub open spec fn spec_scroll_max(content: Size, padding: Size, bounds: Size) -> Size {
    Size {
        width: if content.width + padding.width - bounds.width >= 0 {
            (content.width + padding.width - bounds.width) as i64
        } else {
            0
        },
        height: if content.height + padding.height - bounds.height >= 0 {
            (content.height + padding.height - bounds.height) as i64
        } else {
            0
        },
    }
}

/// Clamp a scroll offset against the scrollable range for the given
/// content, padding and bounds sizes. After the call the offset lies in
/// `[-(content + padding - bounds), 0]` componentwise, and equals zero
/// on any axis where the content fits within the bounds.
pub fn clamp_scroll_offset(offset: &mut Point, content: Size, padding: Size, bounds: Size)
    requires
        content.wf(),
        padding.wf(),
        bounds.wf(),
    ensures
        ({
            let m = spec_scroll_max(content, padding, bounds);
            &&& final(offset).x == spec_clamp(old(offset).x as int, -m.width, 0)
            &&& final(offset).y == spec_clamp(old(offset).y as int, -m.height, 0)
            &&& -m.width <= final(offset).x <= 0
            &&& -m.height <= final(offset).y <= 0
            &&& content.width + padding.width > bounds.width ==> -(content.width + padding.width
                - bounds.width) <= final(offset).x
            &&& content.height + padding.height > bounds.height ==> -(content.height
                + padding.height - bounds.height) <= final(offset).y
            &&& content.width + padding.width <= bounds.width ==> final(offset).x == 0
            &&& content.height + padding.height <= bounds.height ==> final(offset).y == 0
        }),
{
    let max_x: i64 = max_i64(content.width + padding.width - bounds.width, 0);
    let max_y: i64 = max_i64(content.height + padding.height - bounds.height, 0);
    offset.x = clamp_i64(offset.x, -max_x, 0);
    offset.y = clamp_i64(offset.y, -max_y, 0);
}

/// The index of the first child whose bottom edge reaches down to `top`,
/// or the child count if none does.
pub open spec fn spec_first_reaching(cb: Seq<Bounds>, top: int) -> int
    decreases cb.len(),
{
    if cb.len() == 0 {
        0
    } else if cb[0].spec_bottom() >= top {
        0
    } else {
        1 + spec_first_reaching(cb.drop_first(), top)
    }
}

proof fn lemma_first_reaching_is(cb: Seq<Bounds>, top: int, ix: int)
    requires
        0 <= ix <= cb.len(),
        forall|k: int| 0 <= k < ix ==> (#[trigger] cb[k]).spec_bottom() < top,
        ix < cb.len() ==> cb[ix].spec_bottom() >= top,
    ensures
        spec_first_reaching(cb, top) == ix,
    decreases cb.len(),
{
    if cb.len() == 0 {
    } else if ix == 0 {
    } else {
        assert(cb[0].spec_bottom() < top);
        assert(forall|k: int|
            0 <= k < cb.drop_first().len() ==> (#[trigger] cb.drop_first()[k]) == cb[k + 1]);
        lemma_first_reaching_is(cb.drop_first(), top, ix - 1);
    }
}

/// Children laid out in order: both their top and their bottom edges are
/// nondecreasing along the child list.
pub open spec fn spec_children_ordered(cb: Seq<Bounds>) -> bool {
    forall|i: int, j: int|
        0 <= i < j < cb.len() ==> (#[trigger] cb[i]).spec_top() <= (#[trigger] cb[j]).spec_top()
            && cb[i].spec_bottom() <= cb[j].spec_bottom()
}

/// The index reported as the top visible item for a given viewport top
/// line: the first child whose bottom reaches the line, clamped to the
/// last child; zero when there are no children.
pub open spec fn spec_top_item(cb: Seq<Bounds>, top: int) -> int {
    if cb.len() == 0 {
        0
    } else if spec_first_reaching(cb, top) < cb.len() {
        spec_first_reaching(cb, top)
    } else {
        cb.len() - 1
    }
}

impl ScrollHandleState {
    /// All recorded geometry is well formed.
    pub open spec fn wf(self) -> bool {
        &&& self.bounds.wf()
        &&& forall|i: int| 0 <= i < self.child_bounds@.len() ==> (#[trigger] self.child_bounds@[i]).wf()
        &&& -0x1_0000_0000 <= self.offset.x <= 0x1_0000_0000
        &&& -0x1_0000_0000 <= self.offset.y <= 0x1_0000_0000
    }

    /// A fresh scroll state: zero offset, empty bounds, no children, no
    /// pending request, no overflow.
    pub fn new() -> (r: ScrollHandleState)
        ensures
            r.wf(),
            r.offset == (Point { x: 0, y: 0 }),
            r.bounds == (Bounds {
                origin: Point { x: 0, y: 0 },
                size: Size { width: 0, height: 0 },
            }),
            r.child_bounds@.len() == 0,
            r.requested_scroll_top is None,
            r.overflow == (OverflowAxes { x: Overflow::Visible, y: Overflow::Visible }),
    {
        ScrollHandleState {
            offset: Point { x: 0, y: 0 },
            bounds: Bounds { origin: Point { x: 0, y: 0 }, size: Size { width: 0, height: 0 } },
            child_bounds: Vec::new(),
            requested_scroll_top: None,
            overflow: OverflowAxes { x: Overflow::Visible, y: Overflow::Visible },
        }
    }

    /// Get the current scroll offset.
    pub fn offset(&self) -> (r: Point)
        ensures
            r == self.offset,
    {
        self.offset
    }

    /// Set the offset explicitly: the distance from the container's top
    /// left to the first child's top left, more negative as scrolling
    /// proceeds. The value is clamped on the next prepaint.
    pub fn set_offset(&mut self, position: Point)
        ensures
            *final(self) == (ScrollHandleState { offset: position, ..*old(self) }),
    {
        self.offset = position;
    }

    /// Return the bounds into which this container was painted.
    pub fn bounds(&self) -> (r: Bounds)
        ensures
            r == self.bounds,
    {
        self.bounds
    }

    /// Get the bounds for a specific child, if it exists.
    pub fn bounds_for_item(&self, ix: usize) -> (r: Option<Bounds>)
        ensures
            r == if ix < self.child_bounds@.len() {
                Some(self.child_bounds@[ix as int])
            } else {
                None::<Bounds>
            },
    {
        if ix < self.child_bounds.len() {
            Some(self.child_bounds[ix])
        } else {
            None
        }
    }

    /// Get the count of children recorded for this container.
    pub fn children_count(&self) -> (r: usize)
        ensures
            r == self.child_bounds@.len(),
    {
        self.child_bounds.len()
    }

    /// Request a logical scroll position — a child index and a pixel
    /// offset — to be applied by the next prepaint.
    pub fn set_logical_scroll_top(&mut self, ix: usize, px: i64)
        ensures
            *final(self) == (ScrollHandleState {
                requested_scroll_top: Some((ix, px)),
                ..*old(self)
            }),
    {
        self.requested_scroll_top = Some((ix, px));
    }

    /// Get the top child that's scrolled into view: the first child
    /// whose bottom edge reaches the viewport's top line, clamped to
    /// the last child. The result is exact when the children are
    /// recorded in layout order (nondecreasing tops and bottoms, as a
    /// vertical list lays out); for any other list it is still some
    /// in-range index.
    pub fn top_item(&self) -> (r: usize)
        requires
            self.wf(),
        ensures
            self.child_bounds@.len() == 0 ==> r == 0,
            self.child_bounds@.len() > 0 ==> r < self.child_bounds@.len(),
            spec_children_ordered(self.child_bounds@) ==> r == spec_top_item(
                self.child_bounds@,
                self.bounds.spec_top() - self.offset.y,
            ),
    {
        let top: i64 = self.bounds.top() - self.offset.y;
        let n: usize = self.child_bounds.len();
        if n == 0 {
            proof {
                if spec_children_ordered(self.child_bounds@) {
                    lemma_first_reaching_is(self.child_bounds@, top as int, 0);
                }
            }
            return 0;
        }
        let mut lo: usize = 0;
        let mut hi: usize = n;
        while lo < hi
            invariant
                0 <= lo <= hi <= n,
                n == self.child_bounds@.len(),
                self.wf(),
                spec_children_ordered(self.child_bounds@) ==> forall|k: int|
                    0 <= k < lo ==> (#[trigger] self.child_bounds@[k]).spec_bottom() < top,
                spec_children_ordered(self.child_bounds@) ==> forall|k: int|
                    hi <= k < n ==> (#[trigger] self.child_bounds@[k]).spec_bottom() >= top,
            decreases hi - lo,
        {
            let mid: usize = lo + (hi - lo) / 2;
            if self.child_bounds[mid].bottom() < top {
                proof {
                    if spec_children_ordered(self.child_bounds@) {
                        assert forall|k: int|
                            0 <= k < mid + 1 implies (#[trigger] self.child_bounds@[k]).spec_bottom()
                            < top by {
                            if k < mid {
                                assert(self.child_bounds@[k].spec_bottom()
                                    <= self.child_bounds@[mid as int].spec_bottom());
                            }
                        }
                    }
                }
                lo = mid + 1;
            } else {
                proof {
                    if spec_children_ordered(self.child_bounds@) {
                        assert forall|k: int|
                            mid <= k < n implies (#[trigger] self.child_bounds@[k]).spec_bottom()
                            >= top by {
                            if k > mid {
                                assert(self.child_bounds@[mid as int].spec_bottom()
                                    <= self.child_bounds@[k].spec_bottom());
                            }
                        }
                    }
                }
                hi = mid;
            }
        }
        proof {
            if spec_children_ordered(self.child_bounds@) {
                lemma_first_reaching_is(self.child_bounds@, top as int, lo as int);
            }
        }
        if lo < n {
            lo
        } else {
            n - 1
        }
    }

    /// Get the logical scroll top: the index of the top visible child
    /// and the pixel offset of its top edge relative to the viewport
    /// top. Used to persist scroll positions independently of absolute
    /// offsets. The index is exact for children recorded in layout
    /// order; the reported pixel offset always belongs to the reported
    /// child.
    pub fn logical_scroll_top(&self) -> (r: (usize, i64))
        requires
            self.wf(),
        ensures
            self.child_bounds@.len() == 0 ==> r.0 == 0,
            self.child_bounds@.len() > 0 ==> r.0 < self.child_bounds@.len(),
            r.1 == if r.0 < self.child_bounds@.len() {
                self.child_bounds@[r.0 as int].spec_top() + self.offset.y - self.bounds.spec_top()
            } else {
                0
            },
            spec_children_ordered(self.child_bounds@) ==> r.0 == spec_top_item(
                self.child_bounds@,
                self.bounds.spec_top() - self.offset.y,
            ),
    {
        let ix = self.top_item();
        if ix < self.child_bounds.len() {
            (ix, self.child_bounds[ix].top() + self.offset.y - self.bounds.top())
        } else {
            (ix, 0)
        }
    }

    /// Scroll the minimal amount needed to bring the child at `ix` fully
    /// into view, on each axis whose overflow scrolls. A child already
    /// in view leaves the offset unchanged; an index out of range does
    /// nothing.
    pub fn scroll_to_item(&mut self, ix: usize)
        requires
            old(self).wf(),
        ensures
            ix >= old(self).child_bounds@.len() ==> *final(self) == *old(self),
            ix < old(self).child_bounds@.len() ==> {
                let cb = old(self).child_bounds@[ix as int];
                let b = old(self).bounds;
                let o = old(self).offset;
                let new_y: int = if old(self).overflow.y == Overflow::Scroll {
                    if cb.spec_top() + o.y < b.spec_top() {
                        b.spec_top() - cb.spec_top()
                    } else if cb.spec_bottom() + o.y > b.spec_bottom() {
                        b.spec_bottom() - cb.spec_bottom()
                    } else {
                        o.y as int
                    }
                } else {
                    o.y as int
                };
                let new_x: int = if old(self).overflow.x == Overflow::Scroll {
                    if cb.spec_left() + o.x < b.spec_left() {
                        b.spec_left() - cb.spec_left()
                    } else if cb.spec_right() + o.x > b.spec_right() {
                        b.spec_right() - cb.spec_right()
                    } else {
                        o.x as int
                    }
                } else {
                    o.x as int
                };
                *final(self) == (ScrollHandleState {
                    offset: Point { x: new_x as i64, y: new_y as i64 },
                    ..*old(self)
                })
            },
    {
        if ix >= self.child_bounds.len() {
            return ;
        }
        let cb = self.child_bounds[ix];
        let mut offset = self.offset;
        if matches!(self.overflow.y, Overflow::Scroll) {
            if cb.top() + offset.y < self.bounds.top() {
                offset.y = self.bounds.top() - cb.top();
            } else if cb.bottom() + offset.y > self.bounds.bottom() {
                offset.y = self.bounds.bottom() - cb.bottom();
            }
        }
        if matches!(self.overflow.x, Overflow::Scroll) {
            if cb.left() + offset.x < self.bounds.left() {
                offset.x = self.bounds.left() - cb.left();
            } else if cb.right() + offset.x > self.bounds.right() {
                offset.x = self.bounds.right() - cb.right();
            }
        }
        self.offset = offset;
    }
}

/// The pixel displacement a wheel event applies to an offset, given the
/// overflow configuration: a scrolling axis takes its own delta, or
/// borrows the other axis's delta when that axis does not scroll; when
/// concurrent scrolling is off and both axes would move, only the axis
/// with the larger displacement moves.
pub open spec fn spec_effective_wheel_delta(
    overflow: OverflowAxes,
    allow_concurrent: bool,
    delta: Point,
) -> Point {
    let dx: int = if overflow.x == Overflow::Scroll {
        if delta.x != 0 {
            delta.x as int
        } else if overflow.y != Overflow::Scroll {
            delta.y as int
        } else {
            0
        }
    } else {
        0
    };
    let dy: int = if overflow.y == Overflow::Scroll {
        if delta.y != 0 {
            delta.y as int
        } else if overflow.x != Overflow::Scroll {
            delta.x as int
        } else {
            0
        }
    } else {
        0
    };
    if !allow_concurrent && dx != 0 && dy != 0 {
        if abs_int(dx) > abs_int(dy) {
            Point { x: dx as i64, y: 0 }
        } else {
            Point { x: 0, y: dy as i64 }
        }
    } else {
        Point { x: dx as i64, y: dy as i64 }
    }
}

/// Whether an offset is within the range wheel arithmetic accepts.
pub open spec fn spec_offset_in_range(p: Point) -> bool {
    -0x1_0000_0000 <= p.x <= 0x1_0000_0000 && -0x1_0000_0000 <= p.y <= 0x1_0000_0000
}

/// The absolute value.
pub open spec fn abs_int(v: int) -> int {
    if v >= 0 {
        v
    } else {
        -v
    }
}

/// Apply a wheel event's pixel delta to a scroll offset and report
/// whether the offset changed. The offset is clamped later, by the next
/// prepaint.
pub fn apply_scroll_wheel(
    offset: &mut Point,
    overflow: OverflowAxes,
    allow_concurrent: bool,
    delta: Point,
) -> (changed: bool)
    requires
        -0x1_0000_0000 <= old(offset).x <= 0x1_0000_0000,
        -0x1_0000_0000 <= old(offset).y <= 0x1_0000_0000,
        delta.wf(),
    ensures
        ({
            let d = spec_effective_wheel_delta(overflow, allow_concurrent, delta);
            &&& final(offset).x == old(offset).x + d.x
            &&& final(offset).y == old(offset).y + d.y
            &&& changed == (d.x != 0 || d.y != 0)
        }),
{
    let mut dx: i64 = 0;
    if matches!(overflow.x, Overflow::Scroll) {
        if delta.x != 0 {
            dx = delta.x;
        } else if !matches!(overflow.y, Overflow::Scroll) {
            dx = delta.y;
        }
    }
    let mut dy: i64 = 0;
    if matches!(overflow.y, Overflow::Scroll) {
        if delta.y != 0 {
            dy = delta.y;
        } else if !matches!(overflow.x, Overflow::Scroll) {
            dy = delta.x;
        }
    }
    if !allow_concurrent && dx != 0 && dy != 0 {
        let ax: i64 = if dx >= 0 {
            dx
        } else {
            -dx
        };
        let ay: i64 = if dy >= 0 {
            dy
        } else {
            -dy
        };
        if ax > ay {
            dy = 0;
        } else {
            dx = 0;
        }
    }
    offset.x = offset.x + dx;
    offset.y = offset.y + dy;
    dx != 0 || dy != 0
}

/// An element that can be scrolled *to* inside a scrollable ancestor,
/// without being one of its immediate children: the scroll handle it
/// targets and the element's own origin recorded by the last prepaint.
#[derive(Clone, Copy, Debug, PartialEq, Eq, Structural)]
pub struct ScrollAnchor {
    /// The scroll state the anchor scrolls.
    pub handle: u64,
    /// The anchored element's origin as of the last prepaint.
    pub last_origin: Point,
}

impl ScrollAnchor {
    /// Creates an anchor targeting the given scroll handle.
    pub fn for_handle(handle: u64) -> (r: ScrollAnchor)
        ensures
            r.handle == handle,
            r.last_origin == (Point { x: 0, y: 0 }),
    {
        ScrollAnchor { handle, last_origin: Point { x: 0, y: 0 } }
    }

    /// Scroll the targeted state so that this anchor's recorded origin
    /// lands at the viewport's top left: the offset becomes the
    /// difference between the two origins. The next prepaint clamps it.
    pub fn scroll_to(&self, state: &mut ScrollHandleState)
        requires
            old(state).bounds.wf(),
            self.last_origin.wf(),
        ensures
            final(state).offset.x == old(state).bounds.origin.x - self.last_origin.x,
            final(state).offset.y == old(state).bounds.origin.y - self.last_origin.y,
            *final(state) == (ScrollHandleState { offset: final(state).offset, ..*old(state) }),
    {
        state.offset = Point {
            x: state.bounds.origin.x - self.last_origin.x,
            y: state.bounds.origin.y - self.last_origin.y,
        };
    }
}

} // verus!
