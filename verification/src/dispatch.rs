//! Event dispatch and the phase model.
//!
//! Every input event travels the bound listeners twice: a capture pass
//! in bind order (parents bound before their children, so root to
//! target), then a bubble pass in reverse. A pointer listener fires only
//! if its phase, button, hover and drag filters match at dispatch time.
//! A handler may stop propagation, which halts the remaining delivery of
//! the event, or prevent the default behavior without stopping it.

use crate::context::Context;
use crate::element_state::{InteractiveElementState, StateStore};
use crate::events::{DispatchPhase, MouseButton};
use crate::frame::{BoundPointerListener, BoundScroll, Frame, ScrollSource};
use crate::geometry::Point;
use crate::hitbox::hit_test_contains;
use crate::interaction::HoverFilter;
use crate::scroll::{apply_scroll_wheel, spec_effective_wheel_delta, spec_offset_in_range,
    ScrollHandleState};
use crate::store::Store;
use vstd::prelude::*;

verus! {

/// Whether a bound pointer listener matches in the given phase: its
/// declared phase, its button filter against the event's button, its
/// hover filter against the current hit test and pointer position, and
/// its drag filter against the active drag.
pub open spec fn spec_listener_matches(
    bl: BoundPointerListener,
    phase: DispatchPhase,
    button: Option<MouseButton>,
    frame: Frame,
    cx: Context,
) -> bool {
    &&& bl.listener.phase == phase
    &&& (bl.listener.button is Some ==> button == bl.listener.button)
    &&& match bl.listener.hover {
        HoverFilter::Hovered => frame.spec_hovered(bl.hitbox),
        HoverFilter::NotHovered => !frame.spec_hovered(bl.hitbox),
        HoverFilter::OutsideBounds => !(0 <= bl.hitbox < frame.hitboxes@.len()
            && frame.hitboxes@[bl.hitbox as int].bounds.spec_contains(frame.mouse_position)),
        HoverFilter::Any => true,
    }
    &&& (bl.listener.drag_type matches Some(t) ==> cx.active_drag matches Some(d)
        && d.value_type == t)
}

/// Decide whether a bound pointer listener fires in the given phase.
pub fn listener_matches(
    bl: &BoundPointerListener,
    phase: DispatchPhase,
    button: Option<MouseButton>,
    frame: &Frame,
    hit: &Vec<u64>,
    cx: &Context,
) -> (r: bool)
    requires
        frame.wf(),
        hit@ == frame.spec_hit(),
    ensures
        r == spec_listener_matches(*bl, phase, button, *frame, *cx),
{
    if bl.listener.phase != phase {
        return false;
    }
    match bl.listener.button {
        Some(b) => {
            if button != Some(b) {
                return false;
            }
        },
        None => {},
    }
    let hover_ok: bool = match bl.listener.hover {
        HoverFilter::Hovered => hit_test_contains(hit, bl.hitbox),
        HoverFilter::NotHovered => !hit_test_contains(hit, bl.hitbox),
        HoverFilter::OutsideBounds => {
            if bl.hitbox < frame.hitboxes.len() as u64 {
                let hb = &frame.hitboxes[bl.hitbox as usize];
                !hb.bounds.contains(&frame.mouse_position)
            } else {
                true
            }
        },
        HoverFilter::Any => true,
    };
    if !hover_ok {
        return false;
    }
    match bl.listener.drag_type {
        Some(t) => {
            match &cx.active_drag {
                Some(d) => d.value_type == t,
                None => false,
            }
        },
        None => true,
    }
}

/// The indexes at or after `k` whose listeners match in the given
/// phase, in ascending order: the capture pass order.
pub open spec fn spec_matching_asc(
    ls: Seq<BoundPointerListener>,
    k: int,
    phase: DispatchPhase,
    button: Option<MouseButton>,
    frame: Frame,
    cx: Context,
) -> Seq<int>
    decreases ls.len() - k when 0 <= k <= ls.len()
{
    if k >= ls.len() {
        Seq::empty()
    } else if spec_listener_matches(ls[k], phase, button, frame, cx) {
        seq![k] + spec_matching_asc(ls, k + 1, phase, button, frame, cx)
    } else {
        spec_matching_asc(ls, k + 1, phase, button, frame, cx)
    }
}

/// The indexes before `k` whose listeners match in the given phase, in
/// descending order: the bubble pass order.
pub open spec fn spec_matching_desc(
    ls: Seq<BoundPointerListener>,
    k: int,
    phase: DispatchPhase,
    button: Option<MouseButton>,
    frame: Frame,
    cx: Context,
) -> Seq<int>
    decreases k when 0 <= k <= ls.len()
{
    if k <= 0 {
        Seq::empty()
    } else if spec_listener_matches(ls[k - 1], phase, button, frame, cx) {
        seq![k - 1] + spec_matching_desc(ls, k - 1, phase, button, frame, cx)
    } else {
        spec_matching_desc(ls, k - 1, phase, button, frame, cx)
    }
}

/// The complete delivery plan of one pointer event when nothing stops
/// propagation: every capture-phase match in bind order — root to
/// target — followed by every bubble-phase match in reverse bind order.
pub open spec fn spec_fire_order(
    ls: Seq<BoundPointerListener>,
    button: Option<MouseButton>,
    frame: Frame,
    cx: Context,
) -> Seq<int> {
    spec_matching_asc(ls, 0, DispatchPhase::Capture, button, frame, cx) + spec_matching_desc(
        ls,
        ls.len() as int,
        DispatchPhase::Bubble,
        button,
        frame,
        cx,
    )
}

/// Compute the delivery plan of one pointer event: the listener indexes
/// that fire, capture pass first in bind order, then the bubble pass in
/// reverse bind order, assuming no handler stops propagation.
pub fn mouse_dispatch_plan(
    listeners: &Vec<BoundPointerListener>,
    button: Option<MouseButton>,
    frame: &Frame,
    hit: &Vec<u64>,
    cx: &Context,
) -> (r: Vec<usize>)
    requires
        frame.wf(),
        hit@ == frame.spec_hit(),
    ensures
        r@.map_values(|i: usize| i as int) == spec_fire_order(listeners@, button, *frame, *cx),
{
    let ghost ls = listeners@;
    let mut r: Vec<usize> = Vec::new();
    let mut i: usize = 0;
    while i < listeners.len()
        invariant
            i <= ls.len(),
            listeners@ == ls,
            frame.wf(),
            hit@ == frame.spec_hit(),
            r@.map_values(|x: usize| x as int) + spec_matching_asc(
                ls,
                i as int,
                DispatchPhase::Capture,
                button,
                *frame,
                *cx,
            ) == spec_matching_asc(ls, 0, DispatchPhase::Capture, button, *frame, *cx),
        decreases ls.len() - i,
    {
        if listener_matches(&listeners[i], DispatchPhase::Capture, button, frame, hit, cx) {
            r.push(i);
            proof {
                assert(r@.map_values(|x: usize| x as int) =~= r@.drop_last().map_values(
                    |x: usize| x as int,
                ).push(i as int));
                assert(r@.drop_last().map_values(|x: usize| x as int).push(i as int)
                    + spec_matching_asc(
                    ls,
                    i as int + 1,
                    DispatchPhase::Capture,
                    button,
                    *frame,
                    *cx,
                ) =~= r@.drop_last().map_values(|x: usize| x as int) + (seq![i as int]
                    + spec_matching_asc(
                    ls,
                    i as int + 1,
                    DispatchPhase::Capture,
                    button,
                    *frame,
                    *cx,
                )));
            }
        } else {
            proof {
                assert(spec_matching_asc(ls, i as int, DispatchPhase::Capture, button, *frame, *cx)
                    == spec_matching_asc(
                    ls,
                    i as int + 1,
                    DispatchPhase::Capture,
                    button,
                    *frame,
                    *cx,
                ));
            }
        }
        i = i + 1;
    }
    let ghost capture_done = r@.map_values(|x: usize| x as int);
    proof {
        assert(spec_matching_asc(ls, ls.len() as int, DispatchPhase::Capture, button, *frame, *cx)
            =~= Seq::<int>::empty());
        assert(capture_done =~= spec_matching_asc(
            ls,
            0,
            DispatchPhase::Capture,
            button,
            *frame,
            *cx,
        ));
    }
    let mut j: usize = listeners.len();
    while j > 0
        invariant
            j <= ls.len(),
            listeners@ == ls,
            frame.wf(),
            hit@ == frame.spec_hit(),
            r@.map_values(|x: usize| x as int) + spec_matching_desc(
                ls,
                j as int,
                DispatchPhase::Bubble,
                button,
                *frame,
                *cx,
            ) == capture_done + spec_matching_desc(
                ls,
                ls.len() as int,
                DispatchPhase::Bubble,
                button,
                *frame,
                *cx,
            ),
        decreases j,
    {
        j = j - 1;
        if listener_matches(&listeners[j], DispatchPhase::Bubble, button, frame, hit, cx) {
            r.push(j);
            proof {
                assert(r@.map_values(|x: usize| x as int) =~= r@.drop_last().map_values(
                    |x: usize| x as int,
                ).push(j as int));
                assert(r@.drop_last().map_values(|x: usize| x as int).push(j as int)
                    + spec_matching_desc(
                    ls,
                    j as int,
                    DispatchPhase::Bubble,
                    button,
                    *frame,
                    *cx,
                ) =~= r@.drop_last().map_values(|x: usize| x as int) + (seq![j as int]
                    + spec_matching_desc(ls, j as int, DispatchPhase::Bubble, button, *frame, *cx)));
            }
        }
    }
    proof {
        assert(spec_matching_desc(ls, 0, DispatchPhase::Bubble, button, *frame, *cx)
            =~= Seq::<int>::empty());
        assert(r@.map_values(|x: usize| x as int) + Seq::<int>::empty() =~= r@.map_values(
            |x: usize| x as int,
        ));
        assert(r@.map_values(|x: usize| x as int) =~= spec_fire_order(ls, button, *frame, *cx));
    }
    r
}

/// Every index in the ascending matching order lies in `[k, len)`, is
/// strictly increasing, and matches in the given phase.
pub proof fn lemma_matching_asc_sound(
    ls: Seq<BoundPointerListener>,
    k: int,
    phase: DispatchPhase,
    button: Option<MouseButton>,
    frame: Frame,
    cx: Context,
)
    requires
        0 <= k <= ls.len(),
    ensures
        ({
            let m = spec_matching_asc(ls, k, phase, button, frame, cx);
            &&& forall|a: int|
                0 <= a < m.len() ==> k <= #[trigger] m[a] < ls.len() && spec_listener_matches(
                    ls[m[a]],
                    phase,
                    button,
                    frame,
                    cx,
                )
            &&& forall|a: int, b: int| 0 <= a < b < m.len() ==> #[trigger] m[a] < #[trigger] m[b]
        }),
    decreases ls.len() - k,
{
    if k < ls.len() {
        lemma_matching_asc_sound(ls, k + 1, phase, button, frame, cx);
        let rest = spec_matching_asc(ls, k + 1, phase, button, frame, cx);
        if spec_listener_matches(ls[k], phase, button, frame, cx) {
            let m = seq![k] + rest;
            assert(forall|a: int| 0 <= a < rest.len() ==> #[trigger] m[a + 1] == rest[a]);
            assert(m[0] == k);
        }
    }
}

/// Every index in the descending matching order lies in `[0, k)`, is
/// strictly decreasing, and matches in the given phase.
pub proof fn lemma_matching_desc_sound(
    ls: Seq<BoundPointerListener>,
    k: int,
    phase: DispatchPhase,
    button: Option<MouseButton>,
    frame: Frame,
    cx: Context,
)
    requires
        0 <= k <= ls.len(),
    ensures
        ({
            let m = spec_matching_desc(ls, k, phase, button, frame, cx);
            &&& forall|a: int|
                0 <= a < m.len() ==> 0 <= #[trigger] m[a] < k && spec_listener_matches(
                    ls[m[a]],
                    phase,
                    button,
                    frame,
                    cx,
                )
            &&& forall|a: int, b: int| 0 <= a < b < m.len() ==> #[trigger] m[a] > #[trigger] m[b]
        }),
    decreases k,
{
    if k > 0 {
        lemma_matching_desc_sound(ls, k - 1, phase, button, frame, cx);
        let rest = spec_matching_desc(ls, k - 1, phase, button, frame, cx);
        if spec_listener_matches(ls[k - 1], phase, button, frame, cx) {
            let m = seq![k - 1] + rest;
            assert(forall|a: int| 0 <= a < rest.len() ==> #[trigger] m[a + 1] == rest[a]);
            assert(m[0] == k - 1);
        }
    }
}

/// A listener fires at most once per event: no index appears twice in
/// the delivery plan. Within the capture part indexes strictly
/// increase, within the bubble part they strictly decrease, and no
/// index can sit in both parts because a listener declares a single
/// phase.
pub proof fn lemma_fire_order_no_repeat(
    ls: Seq<BoundPointerListener>,
    button: Option<MouseButton>,
    frame: Frame,
    cx: Context,
)
    ensures
        ({
            let m = spec_fire_order(ls, button, frame, cx);
            forall|a: int, b: int| 0 <= a < b < m.len() ==> #[trigger] m[a] != #[trigger] m[b]
        }),
{
    let cap = spec_matching_asc(ls, 0, DispatchPhase::Capture, button, frame, cx);
    let bub = spec_matching_desc(ls, ls.len() as int, DispatchPhase::Bubble, button, frame, cx);
    let m = cap + bub;
    lemma_matching_asc_sound(ls, 0, DispatchPhase::Capture, button, frame, cx);
    lemma_matching_desc_sound(ls, ls.len() as int, DispatchPhase::Bubble, button, frame, cx);
    assert forall|a: int, b: int| 0 <= a < b < m.len() implies #[trigger] m[a] != #[trigger] m[b] by {
        if b < cap.len() {
            assert(m[a] == cap[a] && m[b] == cap[b]);
        } else if a >= cap.len() {
            assert(m[a] == bub[a - cap.len()] && m[b] == bub[b - cap.len()]);
        } else {
            assert(m[a] == cap[a] && m[b] == bub[b - cap.len()]);
            assert(spec_listener_matches(ls[m[a]], DispatchPhase::Capture, button, frame, cx));
            assert(spec_listener_matches(ls[m[b]], DispatchPhase::Bubble, button, frame, cx));
            if m[a] == m[b] {
                assert(ls[m[a]].listener.phase == DispatchPhase::Capture);
                assert(ls[m[a]].listener.phase == DispatchPhase::Bubble);
            }
        }
    }
}

/// The cursor of one event's interactive delivery. Unlike the
/// precomputed plan, the cursor lets the handler that just ran stop
/// propagation or prevent the default behavior before the next listener
/// is chosen: once stopped, nothing more fires. The capture pass always
/// completes before the bubble pass begins, and the cursor's phase
/// never moves back.
pub struct DispatchCursor {
    /// The pass currently delivering.
    pub phase: DispatchPhase,
    /// The first capture-pass index not yet considered; scans upward.
    pub next_capture: usize,
    /// The exclusive upper bound of the bubble-pass scan; scans
    /// downward.
    pub next_bubble: usize,
    /// Set when a handler stopped propagation: delivery is over.
    pub stopped: bool,
    /// Set when a handler prevented the default behavior.
    pub default_prevented: bool,
}

/// Begin delivering one event over `listener_count` bound listeners.
pub fn dispatch_begin(listener_count: usize) -> (r: DispatchCursor)
    ensures
        r.phase == DispatchPhase::Capture,
        r.next_capture == 0,
        r.next_bubble == listener_count,
        !r.stopped,
        !r.default_prevented,
{
    DispatchCursor {
        phase: DispatchPhase::Capture,
        next_capture: 0,
        next_bubble: listener_count,
        stopped: false,
        default_prevented: false,
    }
}

/// Record what the handler that just ran asked for.
pub fn dispatch_report(cur: &mut DispatchCursor, stop_propagation: bool, prevent_default: bool)
    ensures
        *final(cur) == (DispatchCursor {
            stopped: old(cur).stopped || stop_propagation,
            default_prevented: old(cur).default_prevented || prevent_default,
            ..*old(cur)
        }),
{
    cur.stopped = cur.stopped || stop_propagation;
    cur.default_prevented = cur.default_prevented || prevent_default;
}

/// The next listener to fire, or `None` when delivery is over: the next
/// capture-pass match in bind order while the capture pass lasts, then
/// the next bubble-pass match in reverse bind order. Nothing fires once
/// propagation stopped, skipped listeners never match, and the cursor
/// only moves forward, so no listener is offered twice.
pub fn dispatch_next(
    cur: &mut DispatchCursor,
    listeners: &Vec<BoundPointerListener>,
    button: Option<MouseButton>,
    frame: &Frame,
    hit: &Vec<u64>,
    cx: &Context,
) -> (r: Option<usize>)
    requires
        frame.wf(),
        hit@ == frame.spec_hit(),
        old(cur).next_capture <= listeners@.len(),
        old(cur).next_bubble <= listeners@.len(),
    ensures
        final(cur).next_capture <= listeners@.len(),
        final(cur).next_bubble <= listeners@.len(),
        old(cur).stopped ==> r is None && *final(cur) == *old(cur),
        // A capture-pass hit: everything skipped on the way did not
        // match, and the cursor moved just past the hit.
        (r is Some && final(cur).phase == DispatchPhase::Capture) ==> ({
            let i = r->0 as int;
            &&& old(cur).phase == DispatchPhase::Capture
            &&& old(cur).next_capture <= i < listeners@.len()
            &&& spec_listener_matches(
                listeners@[i],
                DispatchPhase::Capture,
                button,
                *frame,
                *cx,
            )
            &&& forall|j: int|
                old(cur).next_capture <= j < i ==> !spec_listener_matches(
                    listeners@[j],
                    DispatchPhase::Capture,
                    button,
                    *frame,
                    *cx,
                )
            &&& *final(cur) == (DispatchCursor {
                next_capture: (r->0 + 1) as usize,
                ..*old(cur)
            })
        }),
        // A bubble-pass hit: the capture pass was already exhausted (or
        // had been before), everything skipped did not match, and the
        // cursor moved just below the hit.
        (r is Some && final(cur).phase == DispatchPhase::Bubble) ==> ({
            let i = r->0 as int;
            &&& i < old(cur).next_bubble
            &&& spec_listener_matches(
                listeners@[i],
                DispatchPhase::Bubble,
                button,
                *frame,
                *cx,
            )
            &&& forall|j: int|
                i < j < old(cur).next_bubble ==> !spec_listener_matches(
                    listeners@[j],
                    DispatchPhase::Bubble,
                    button,
                    *frame,
                    *cx,
                )
            &&& (old(cur).phase == DispatchPhase::Capture ==> forall|j: int|
                old(cur).next_capture <= j < listeners@.len() ==> !spec_listener_matches(
                    listeners@[j],
                    DispatchPhase::Capture,
                    button,
                    *frame,
                    *cx,
                ))
            &&& *final(cur) == (DispatchCursor {
                phase: DispatchPhase::Bubble,
                next_capture: listeners@.len() as usize,
                next_bubble: r->0,
                ..*old(cur)
            })
        }),
        // Delivery over: no remaining listener matches either pass.
        (r is None && !old(cur).stopped) ==> {
            &&& (old(cur).phase == DispatchPhase::Capture ==> forall|j: int|
                old(cur).next_capture <= j < listeners@.len() ==> !spec_listener_matches(
                    listeners@[j],
                    DispatchPhase::Capture,
                    button,
                    *frame,
                    *cx,
                ))
            &&& forall|j: int|
                0 <= j < old(cur).next_bubble ==> !spec_listener_matches(
                    listeners@[j],
                    DispatchPhase::Bubble,
                    button,
                    *frame,
                    *cx,
                )
            &&& *final(cur) == (DispatchCursor {
                phase: DispatchPhase::Bubble,
                next_capture: listeners@.len() as usize,
                next_bubble: 0,
                ..*old(cur)
            })
        },
{
    if cur.stopped {
        return None;
    }
    if cur.phase == DispatchPhase::Capture {
        let mut i: usize = cur.next_capture;
        while i < listeners.len()
            invariant
                old(cur).next_capture <= i <= listeners@.len(),
                old(cur).next_bubble <= listeners@.len(),
                !old(cur).stopped,
                old(cur).phase == DispatchPhase::Capture,
                frame.wf(),
                hit@ == frame.spec_hit(),
                cur == old(cur),
                forall|j: int|
                    old(cur).next_capture <= j < i ==> !spec_listener_matches(
                        listeners@[j],
                        DispatchPhase::Capture,
                        button,
                        *frame,
                        *cx,
                    ),
            decreases listeners@.len() - i,
        {
            if listener_matches(&listeners[i], DispatchPhase::Capture, button, frame, hit, cx) {
                cur.next_capture = i + 1;
                return Some(i);
            }
            i = i + 1;
        }
    }
    cur.phase = DispatchPhase::Bubble;
    cur.next_capture = listeners.len();
    let mut j: usize = cur.next_bubble;
    while j > 0
        invariant
            j <= old(cur).next_bubble,
            old(cur).next_bubble <= listeners@.len(),
            !old(cur).stopped,
            frame.wf(),
            hit@ == frame.spec_hit(),
            cur.next_bubble == old(cur).next_bubble,
            cur.stopped == old(cur).stopped,
            cur.default_prevented == old(cur).default_prevented,
            cur.phase == DispatchPhase::Bubble,
            cur.next_capture == listeners@.len(),
            old(cur).phase == DispatchPhase::Capture ==> forall|k: int|
                old(cur).next_capture <= k < listeners@.len() ==> !spec_listener_matches(
                    listeners@[k],
                    DispatchPhase::Capture,
                    button,
                    *frame,
                    *cx,
                ),
            forall|k: int|
                j <= k < old(cur).next_bubble ==> !spec_listener_matches(
                    listeners@[k],
                    DispatchPhase::Bubble,
                    button,
                    *frame,
                    *cx,
                ),
        decreases j,
    {
        j = j - 1;
        if listener_matches(&listeners[j], DispatchPhase::Bubble, button, frame, hit, cx) {
            cur.next_bubble = j;
            return Some(j);
        }
    }
    cur.next_bubble = 0;
    None
}

/// Whether an action listener fires: its phase, and the dispatched
/// action's type identity.
pub open spec fn spec_action_matches(
    l: crate::interaction::ActionListener,
    phase: DispatchPhase,
    action_type: u64,
) -> bool {
    l.phase == phase && l.action_type == action_type
}

/// The action listener indexes at or after `k` matching in the given
/// phase, ascending: the capture pass order.
pub open spec fn spec_action_asc(
    ls: Seq<crate::interaction::ActionListener>,
    k: int,
    phase: DispatchPhase,
    action_type: u64,
) -> Seq<int>
    decreases ls.len() - k when 0 <= k <= ls.len()
{
    if k >= ls.len() {
        Seq::empty()
    } else if spec_action_matches(ls[k], phase, action_type) {
        seq![k] + spec_action_asc(ls, k + 1, phase, action_type)
    } else {
        spec_action_asc(ls, k + 1, phase, action_type)
    }
}

/// The action listener indexes before `k` matching in the given phase,
/// descending: the bubble pass order.
pub open spec fn spec_action_desc(
    ls: Seq<crate::interaction::ActionListener>,
    k: int,
    phase: DispatchPhase,
    action_type: u64,
) -> Seq<int>
    decreases k when 0 <= k <= ls.len()
{
    if k <= 0 {
        Seq::empty()
    } else if spec_action_matches(ls[k - 1], phase, action_type) {
        seq![k - 1] + spec_action_desc(ls, k - 1, phase, action_type)
    } else {
        spec_action_desc(ls, k - 1, phase, action_type)
    }
}

/// The delivery plan of one dispatched action: every capture-phase
/// listener of that action type in bind order, then every bubble-phase
/// one in reverse bind order.
pub open spec fn spec_action_fire_order(
    ls: Seq<crate::interaction::ActionListener>,
    action_type: u64,
) -> Seq<int> {
    spec_action_asc(ls, 0, DispatchPhase::Capture, action_type) + spec_action_desc(
        ls,
        ls.len() as int,
        DispatchPhase::Bubble,
        action_type,
    )
}

/// Compute the delivery plan of a dispatched action over the bound
/// action listeners, matched by the action's type identity.
pub fn action_dispatch_plan(
    listeners: &Vec<crate::interaction::ActionListener>,
    action_type: u64,
) -> (r: Vec<usize>)
    ensures
        r@.map_values(|i: usize| i as int) == spec_action_fire_order(listeners@, action_type),
{
    let ghost ls = listeners@;
    let mut r: Vec<usize> = Vec::new();
    let mut i: usize = 0;
    while i < listeners.len()
        invariant
            i <= ls.len(),
            listeners@ == ls,
            r@.map_values(|x: usize| x as int) + spec_action_asc(
                ls,
                i as int,
                DispatchPhase::Capture,
                action_type,
            ) == spec_action_asc(ls, 0, DispatchPhase::Capture, action_type),
        decreases ls.len() - i,
    {
        let l = &listeners[i];
        if l.phase == DispatchPhase::Capture && l.action_type == action_type {
            r.push(i);
            proof {
                assert(r@.map_values(|x: usize| x as int) =~= r@.drop_last().map_values(
                    |x: usize| x as int,
                ).push(i as int));
                assert(r@.drop_last().map_values(|x: usize| x as int).push(i as int)
                    + spec_action_asc(ls, i as int + 1, DispatchPhase::Capture, action_type)
                    =~= r@.drop_last().map_values(|x: usize| x as int) + (seq![i as int]
                    + spec_action_asc(ls, i as int + 1, DispatchPhase::Capture, action_type)));
            }
        }
        i = i + 1;
    }
    let ghost capture_done = r@.map_values(|x: usize| x as int);
    proof {
        assert(spec_action_asc(ls, ls.len() as int, DispatchPhase::Capture, action_type)
            =~= Seq::<int>::empty());
        assert(capture_done =~= spec_action_asc(ls, 0, DispatchPhase::Capture, action_type));
    }
    let mut j: usize = listeners.len();
    while j > 0
        invariant
            j <= ls.len(),
            listeners@ == ls,
            r@.map_values(|x: usize| x as int) + spec_action_desc(
                ls,
                j as int,
                DispatchPhase::Bubble,
                action_type,
            ) == capture_done + spec_action_desc(
                ls,
                ls.len() as int,
                DispatchPhase::Bubble,
                action_type,
            ),
        decreases j,
    {
        j = j - 1;
        let l = &listeners[j];
        if l.phase == DispatchPhase::Bubble && l.action_type == action_type {
            r.push(j);
            proof {
                assert(r@.map_values(|x: usize| x as int) =~= r@.drop_last().map_values(
                    |x: usize| x as int,
                ).push(j as int));
                assert(r@.drop_last().map_values(|x: usize| x as int).push(j as int)
                    + spec_action_desc(ls, j as int, DispatchPhase::Bubble, action_type)
                    =~= r@.drop_last().map_values(|x: usize| x as int) + (seq![j as int]
                    + spec_action_desc(ls, j as int, DispatchPhase::Bubble, action_type)));
            }
        }
    }
    proof {
        assert(spec_action_desc(ls, 0, DispatchPhase::Bubble, action_type)
            =~= Seq::<int>::empty());
        assert(r@.map_values(|x: usize| x as int) + Seq::<int>::empty() =~= r@.map_values(
            |x: usize| x as int,
        ));
        assert(r@.map_values(|x: usize| x as int) =~= spec_action_fire_order(ls, action_type));
    }
    r
}

/// The key listener indexes matching in the given phase at or after
/// `k`, ascending.
pub open spec fn spec_key_asc(
    ls: Seq<crate::interaction::KeyListener>,
    k: int,
    phase: DispatchPhase,
) -> Seq<int>
    decreases ls.len() - k when 0 <= k <= ls.len()
{
    if k >= ls.len() {
        Seq::empty()
    } else if ls[k].phase == phase {
        seq![k] + spec_key_asc(ls, k + 1, phase)
    } else {
        spec_key_asc(ls, k + 1, phase)
    }
}

/// The key listener indexes matching in the given phase before `k`,
/// descending.
pub open spec fn spec_key_desc(
    ls: Seq<crate::interaction::KeyListener>,
    k: int,
    phase: DispatchPhase,
) -> Seq<int>
    decreases k when 0 <= k <= ls.len()
{
    if k <= 0 {
        Seq::empty()
    } else if ls[k - 1].phase == phase {
        seq![k - 1] + spec_key_desc(ls, k - 1, phase)
    } else {
        spec_key_desc(ls, k - 1, phase)
    }
}

/// The delivery plan of one key event: the capture-phase listeners in
/// bind order, then the bubble-phase ones in reverse bind order.
pub open spec fn spec_key_fire_order(ls: Seq<crate::interaction::KeyListener>) -> Seq<int> {
    spec_key_asc(ls, 0, DispatchPhase::Capture) + spec_key_desc(
        ls,
        ls.len() as int,
        DispatchPhase::Bubble,
    )
}

/// Compute the delivery plan of a key event over the bound key
/// listeners.
pub fn key_dispatch_plan(listeners: &Vec<crate::interaction::KeyListener>) -> (r: Vec<usize>)
    ensures
        r@.map_values(|i: usize| i as int) == spec_key_fire_order(listeners@),
{
    let ghost ls = listeners@;
    let mut r: Vec<usize> = Vec::new();
    let mut i: usize = 0;
    while i < listeners.len()
        invariant
            i <= ls.len(),
            listeners@ == ls,
            r@.map_values(|x: usize| x as int) + spec_key_asc(ls, i as int, DispatchPhase::Capture)
                == spec_key_asc(ls, 0, DispatchPhase::Capture),
        decreases ls.len() - i,
    {
        if listeners[i].phase == DispatchPhase::Capture {
            r.push(i);
            proof {
                assert(r@.map_values(|x: usize| x as int) =~= r@.drop_last().map_values(
                    |x: usize| x as int,
                ).push(i as int));
                assert(r@.drop_last().map_values(|x: usize| x as int).push(i as int)
                    + spec_key_asc(ls, i as int + 1, DispatchPhase::Capture)
                    =~= r@.drop_last().map_values(|x: usize| x as int) + (seq![i as int]
                    + spec_key_asc(ls, i as int + 1, DispatchPhase::Capture)));
            }
        }
        i = i + 1;
    }
    let ghost capture_done = r@.map_values(|x: usize| x as int);
    proof {
        assert(spec_key_asc(ls, ls.len() as int, DispatchPhase::Capture)
            =~= Seq::<int>::empty());
        assert(capture_done =~= spec_key_asc(ls, 0, DispatchPhase::Capture));
    }
    let mut j: usize = listeners.len();
    while j > 0
        invariant
            j <= ls.len(),
            listeners@ == ls,
            r@.map_values(|x: usize| x as int) + spec_key_desc(ls, j as int, DispatchPhase::Bubble)
                == capture_done + spec_key_desc(ls, ls.len() as int, DispatchPhase::Bubble),
        decreases j,
    {
        j = j - 1;
        if listeners[j].phase == DispatchPhase::Bubble {
            r.push(j);
            proof {
                assert(r@.map_values(|x: usize| x as int) =~= r@.drop_last().map_values(
                    |x: usize| x as int,
                ).push(j as int));
                assert(r@.drop_last().map_values(|x: usize| x as int).push(j as int)
                    + spec_key_desc(ls, j as int, DispatchPhase::Bubble)
                    =~= r@.drop_last().map_values(|x: usize| x as int) + (seq![j as int]
                    + spec_key_desc(ls, j as int, DispatchPhase::Bubble)));
            }
        }
    }
    proof {
        assert(spec_key_desc(ls, 0, DispatchPhase::Bubble) =~= Seq::<int>::empty());
        assert(r@.map_values(|x: usize| x as int) + Seq::<int>::empty() =~= r@.map_values(
            |x: usize| x as int,
        ));
        assert(r@.map_values(|x: usize| x as int) =~= spec_key_fire_order(ls));
    }
    r
}

/// Deliver a wheel event to one bound scroll reaction: it fires on the
/// bubble pass while its hitbox is hovered, moves the bound offset cell
/// by the event's effective delta, requests a repaint exactly when the
/// offset changed, and stops further propagation of the event. An
/// offset already outside the range wheel arithmetic accepts is left
/// alone.
pub fn dispatch_scroll_wheel(
    binding: &BoundScroll,
    store: &mut StateStore,
    scrolls: &mut Store<ScrollHandleState>,
    cx: &mut Context,
    frame: &Frame,
    hit: &Vec<u64>,
    phase: DispatchPhase,
    delta: Point,
) -> (stop: bool)
    requires
        old(store).wf(),
        old(scrolls).wf(),
        frame.wf(),
        hit@ == frame.spec_hit(),
        delta.wf(),
    ensures
        final(store).wf(),
        final(scrolls).wf(),
        ({
            let fires = phase == DispatchPhase::Bubble && frame.spec_hovered(binding.hitbox);
            let d = spec_effective_wheel_delta(
                binding.overflow,
                binding.allow_concurrent_scroll,
                delta,
            );
            let changed = d.x != 0 || d.y != 0;
            &&& stop == fires
            &&& !fires ==> (forall|k: u64| final(scrolls).spec_get(k) == old(scrolls).spec_get(k))
                && (forall|k: u64| final(store).spec_state(k) == old(store).spec_state(k))
                && *final(cx) == *old(cx)
            &&& fires ==> match binding.source {
                ScrollSource::Handle(sh) => {
                    &&& forall|k: u64|
                        k != sh ==> final(scrolls).spec_get(k) == old(scrolls).spec_get(k)
                    &&& forall|k: u64| final(store).spec_state(k) == old(store).spec_state(k)
                    &&& match old(scrolls).spec_get(sh) {
                        Some(st) => {
                            if spec_offset_in_range(st.offset) {
                                final(scrolls).spec_get(sh) == Some(
                                    ScrollHandleState {
                                        offset: Point {
                                            x: (st.offset.x + d.x) as i64,
                                            y: (st.offset.y + d.y) as i64,
                                        },
                                        ..st
                                    },
                                ) && *final(cx) == (Context {
                                    refresh_requested: old(cx).refresh_requested || changed,
                                    ..*old(cx)
                                })
                            } else {
                                final(scrolls).spec_get(sh) == old(scrolls).spec_get(sh)
                                    && *final(cx) == *old(cx)
                            }
                        },
                        None => final(scrolls).spec_get(sh) == old(scrolls).spec_get(sh)
                            && *final(cx) == *old(cx),
                    }
                },
                ScrollSource::Element(id) => {
                    let prior = match old(store).spec_state(id).scroll_offset {
                        Some(o) => o,
                        None => Point { x: 0, y: 0 },
                    };
                    &&& forall|k: u64| final(scrolls).spec_get(k) == old(scrolls).spec_get(k)
                    &&& forall|k: u64|
                        k != id ==> final(store).spec_state(k) == old(store).spec_state(k)
                    &&& spec_offset_in_range(prior) ==> final(store).spec_state(id)
                        == (InteractiveElementState {
                        scroll_offset: Some(
                            Point { x: (prior.x + d.x) as i64, y: (prior.y + d.y) as i64 },
                        ),
                        ..old(store).spec_state(id)
                    }) && *final(cx) == (Context {
                        refresh_requested: old(cx).refresh_requested || changed,
                        ..*old(cx)
                    })
                    &&& !spec_offset_in_range(prior) ==> final(store).spec_state(id) == old(
                        store,
                    ).spec_state(id) && *final(cx) == *old(cx)
                },
            }
        }),
{
    if phase != DispatchPhase::Bubble || !hit_test_contains(hit, binding.hitbox) {
        return false;
    }
    match binding.source {
        ScrollSource::Handle(sh) => {
            match scrolls.take(sh) {
                Some(mut st) => {
                    if -0x1_0000_0000 <= st.offset.x && st.offset.x <= 0x1_0000_0000
                        && -0x1_0000_0000 <= st.offset.y && st.offset.y <= 0x1_0000_0000 {
                        let changed = apply_scroll_wheel(
                            &mut st.offset,
                            binding.overflow,
                            binding.allow_concurrent_scroll,
                            delta,
                        );
                        scrolls.set(sh, st);
                        if changed {
                            cx.refresh();
                        }
                    } else {
                        scrolls.set(sh, st);
                    }
                },
                None => {},
            }
        },
        ScrollSource::Element(id) => {
            let mut st = store.get(id);
            let mut offset = match st.scroll_offset {
                Some(o) => o,
                None => Point { x: 0, y: 0 },
            };
            if -0x1_0000_0000 <= offset.x && offset.x <= 0x1_0000_0000 && -0x1_0000_0000
                <= offset.y && offset.y <= 0x1_0000_0000 {
                let changed = apply_scroll_wheel(
                    &mut offset,
                    binding.overflow,
                    binding.allow_concurrent_scroll,
                    delta,
                );
                st.scroll_offset = Some(offset);
                store.set(id, st);
                if changed {
                    cx.refresh();
                }
            }
        },
    }
    true
}

} // verus!
