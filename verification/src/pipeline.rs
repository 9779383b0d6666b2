//! The frame pipeline: request-layout, prepaint and paint for an
//! interactive element and for a tree of container elements.
//!
//! Per element and frame the three phases run in order. Request layout
//! migrates persistent focus and scroll cells into the configuration and
//! computes the geometry-free style for the layout engine. Prepaint
//! receives final bounds, records the content size, inserts a hitbox if
//! the element needs mouse discrimination, and clamps the scroll offset.
//! Paint binds the declared listeners against the hitbox — draining
//! them, so each fires at most once per frame — and brackets the
//! children with the element's named-group push and pop.

use crate::context::Context;
use crate::element_state::{InteractiveElementState, StateStore};
use crate::frame::{BoundGesture, BoundPointerListener, BoundScroll, Frame, ScrollSource};
use crate::geometry::{Bounds, Point, Size};
use crate::group::GroupRegistry;
use crate::hitbox::Hitbox;
use crate::interaction::{Interactivity, Overflow};
use crate::scroll::{clamp_scroll_offset, spec_scroll_max, ScrollHandleState};
use crate::store::Store;
use crate::style::{compute_style, spec_compute_style, StyleLayer};
use vstd::prelude::*;

verus! {

/// Whether the base style scrolls on either axis.
pub open spec fn spec_overflow_scrolls(config: Interactivity) -> bool {
    config.base_overflow.x == Overflow::Scroll || config.base_overflow.y == Overflow::Scroll
}

/// The persistent state of an element's identity after request layout:
/// armed and clicked state cleared while a drag is active, a focus
/// handle allocated for a focusable element that tracks none, and a
/// scroll offset cell created for a scrolling element without a scroll
/// handle.
pub open spec fn spec_request_layout_state(
    st: InteractiveElementState,
    config: Interactivity,
    cx: Context,
) -> InteractiveElementState {
    let st1 = if cx.spec_has_active_drag() {
        InteractiveElementState {
            pending_mouse_down: None,
            clicked_state: crate::element_state::ElementClickedState {
                group: false,
                element: false,
            },
            ..st
        }
    } else {
        st
    };
    let st2 = if config.focusable && config.tracked_focus_handle is None && st1.focus_handle
        is None {
        InteractiveElementState { focus_handle: Some(cx.next_focus_handle), ..st1 }
    } else {
        st1
    };
    if config.tracked_scroll_handle is None && spec_overflow_scrolls(config)
        && st2.scroll_offset is None {
        InteractiveElementState { scroll_offset: Some(Point { x: 0, y: 0 }), ..st2 }
    } else {
        st2
    }
}

/// The configuration after request layout: the focus handle migrated in
/// for a focusable element that tracked none, and the decision recorded
/// whether the element's own persistent state supplies the scroll
/// offset.
pub open spec fn spec_request_layout_config(
    config: Interactivity,
    st: InteractiveElementState,
    cx: Context,
) -> Interactivity {
    Interactivity {
        tracked_focus_handle: if config.focusable && config.tracked_focus_handle is None
            && config.element_id is Some {
            spec_request_layout_state(st, config, cx).focus_handle
        } else {
            config.tracked_focus_handle
        },
        scroll_offset_from_element_state: config.element_id is Some
            && config.tracked_scroll_handle is None && spec_overflow_scrolls(config),
        ..config
    }
}

/// The focus-handle counter after request layout: bumped exactly when a
/// fresh handle was allocated.
pub open spec fn spec_request_layout_counter(
    config: Interactivity,
    st: InteractiveElementState,
    cx: Context,
) -> u64 {
    if config.element_id is Some && config.focusable && config.tracked_focus_handle is None
        && st.focus_handle is None && cx.next_focus_handle < u64::MAX {
        (cx.next_focus_handle + 1) as u64
    } else {
        cx.next_focus_handle
    }
}

impl Interactivity {
    /// Layout this element according to this configuration: clear stale
    /// armed state while a drag is active, migrate or create the focus
    /// handle and the scroll offset cell, and return the style layers
    /// the layout request is made with — computed purely from the
    /// configuration and persistent state, with no geometry.
    pub fn request_layout(
        &mut self,
        store: &mut StateStore,
        cx: &mut Context,
        frame: &Frame,
    ) -> (layers: Vec<StyleLayer>)
        requires
            old(store).wf(),
        ensures
            final(store).wf(),
            ({
                let updated = spec_request_layout_state(
                    old(store).spec_state(old(self).element_id->0),
                    *old(self),
                    *old(cx),
                );
                &&& old(self).element_id is Some ==> final(store).spec_state(
                    old(self).element_id->0,
                ) == updated && (forall|k: u64|
                    k != old(self).element_id->0 ==> final(store).spec_state(k) == old(
                        store,
                    ).spec_state(k))
                &&& old(self).element_id is None ==> forall|k: u64|
                    final(store).spec_state(k) == old(store).spec_state(k)
                &&& final(self).tracked_focus_handle == if old(self).focusable && old(
                    self,
                ).tracked_focus_handle is None && old(self).element_id is Some {
                    updated.focus_handle
                } else {
                    old(self).tracked_focus_handle
                }
                &&& final(self).scroll_offset_from_element_state == (old(self).element_id is Some
                    && old(self).tracked_scroll_handle is None && spec_overflow_scrolls(
                    *old(self),
                ))
                &&& *final(self) == (Interactivity {
                    tracked_focus_handle: final(self).tracked_focus_handle,
                    scroll_offset_from_element_state: final(self).scroll_offset_from_element_state,
                    ..*old(self)
                })
                &&& *final(cx) == (Context {
                    next_focus_handle: final(cx).next_focus_handle,
                    ..*old(cx)
                })
                &&& final(cx).next_focus_handle == if old(self).element_id is Some && old(
                    self,
                ).focusable && old(self).tracked_focus_handle is None && old(store).spec_state(
                    old(self).element_id->0,
                ).focus_handle is None && old(cx).next_focus_handle < u64::MAX {
                    old(cx).next_focus_handle + 1
                } else {
                    old(cx).next_focus_handle as int
                }
                &&& *final(self) == spec_request_layout_config(
                    *old(self),
                    old(store).spec_state(old(self).element_id->0),
                    *old(cx),
                )
                &&& final(cx).next_focus_handle == spec_request_layout_counter(
                    *old(self),
                    old(store).spec_state(old(self).element_id->0),
                    *old(cx),
                )
                &&& layers@ == spec_compute_style(
                    *final(self),
                    *final(cx),
                    frame.groups,
                    Seq::empty(),
                    None,
                    if old(self).element_id is Some {
                        updated.clicked_state
                    } else {
                        crate::element_state::ElementClickedState { group: false, element: false }
                    },
                    false,
                )
            }),
    {
        self.scroll_offset_from_element_state = false;
        let mut clicked = crate::element_state::ElementClickedState {
            group: false,
            element: false,
        };
        match self.element_id {
            Some(id) => {
                let mut st = store.get(id);
                if cx.has_active_drag() {
                    st.pending_mouse_down = None;
                    st.clicked_state = crate::element_state::ElementClickedState {
                        group: false,
                        element: false,
                    };
                }
                if self.focusable && self.tracked_focus_handle.is_none() {
                    let handle: u64 = match st.focus_handle {
                        Some(f) => f,
                        None => {
                            let f = cx.next_focus_handle;
                            if cx.next_focus_handle < u64::MAX {
                                cx.next_focus_handle = cx.next_focus_handle + 1;
                            }
                            st.focus_handle = Some(f);
                            f
                        },
                    };
                    self.tracked_focus_handle = Some(handle);
                }
                if self.tracked_scroll_handle.is_none() && (matches!(
                    self.base_overflow.x,
                    Overflow::Scroll,
                ) || matches!(self.base_overflow.y, Overflow::Scroll)) {
                    if st.scroll_offset.is_none() {
                        st.scroll_offset = Some(Point { x: 0, y: 0 });
                    }
                    self.scroll_offset_from_element_state = true;
                }
                clicked = st.clicked_state;
                store.set(id, st);
            },
            None => {},
        }
        let hit: Vec<u64> = Vec::new();
        let layers = compute_style(self, cx, &frame.groups, &hit, None, clicked, false);
        proof {
            assert(hit@ =~= Seq::<u64>::empty());
        }
        layers
    }

    /// Commit this element's bounds: record the content size, note a
    /// tracked focus handle with the window, surface the clicked state
    /// and any already-materialized tooltip, insert a hitbox when the
    /// element needs mouse discrimination, and clamp the scroll offset
    /// against content size plus padding minus bounds. Returns the
    /// hitbox, if any, and the clamped scroll offset for positioning
    /// children.
    pub fn prepaint(
        &mut self,
        store: &mut StateStore,
        scrolls: &mut Store<ScrollHandleState>,
        frame: &mut Frame,
        bounds: Bounds,
        content_size: Size,
        padding: Size,
    ) -> (r: (Option<Hitbox>, Point))
        requires
            old(store).wf(),
            old(scrolls).wf(),
            old(frame).wf(),
            bounds.wf(),
            content_size.wf(),
            padding.wf(),
        ensures
            final(store).wf(),
            final(scrolls).wf(),
            final(frame).wf(),
            final(frame).groups == old(frame).groups,
            final(frame).mouse_position == old(frame).mouse_position,
            // A focus-tracked element registers its handle with the
            // window.
            final(frame).focus_registrations@ == if old(self).tracked_focus_handle is Some {
                old(frame).focus_registrations@.push(old(self).tracked_focus_handle->0)
            } else {
                old(frame).focus_registrations@
            },
            // An already-materialized tooltip for this identity is
            // registered with the window, and its identity recorded.
            ({
                let shown = old(self).element_id is Some && (old(store).spec_state(
                    old(self).element_id->0,
                ).active_tooltip matches Some(a) && a.tooltip is Some);
                &&& shown ==> final(frame).tooltips@ == old(frame).tooltips@.push(
                    old(store).spec_state(
                        old(self).element_id->0,
                    ).active_tooltip->0.tooltip->0,
                ) && final(self).tooltip_id == Some(old(frame).tooltips@.len() as u64)
                &&& !shown ==> final(frame).tooltips@ == old(frame).tooltips@
                    && final(self).tooltip_id == old(self).tooltip_id
            }),
            // Prepaint binds nothing: every listener table and binding
            // of the frame is untouched.
            final(frame).mouse_down_listeners@ == old(frame).mouse_down_listeners@,
            final(frame).mouse_up_listeners@ == old(frame).mouse_up_listeners@,
            final(frame).mouse_move_listeners@ == old(frame).mouse_move_listeners@,
            final(frame).scroll_wheel_listeners@ == old(frame).scroll_wheel_listeners@,
            final(frame).key_down_listeners@ == old(frame).key_down_listeners@,
            final(frame).key_up_listeners@ == old(frame).key_up_listeners@,
            final(frame).modifiers_changed_listeners@ == old(frame).modifiers_changed_listeners@,
            final(frame).action_listeners@ == old(frame).action_listeners@,
            final(frame).scroll_bindings@ == old(frame).scroll_bindings@,
            final(frame).gestures@ == old(frame).gestures@,
            final(frame).cursor_styles@ == old(frame).cursor_styles@,
            final(frame).key_context_registrations@ == old(frame).key_context_registrations@,
            // The hitbox decision and its effect on the frame.
            r.0 is Some <==> old(self).spec_needs_hitbox(),
            r.0 matches Some(hb) ==> hb == (Hitbox {
                id: old(frame).hitboxes@.len() as u64,
                bounds,
                opaque: old(self).occlude_mouse,
            }) && final(frame).hitboxes@ == old(frame).hitboxes@.push(hb),
            r.0 is None ==> final(frame).hitboxes@ == old(frame).hitboxes@,
            // The clamped scroll offset: within the scrollable range on
            // both axes, and zero on any axis where content plus
            // padding fits within the bounds.
            ({
                let m = spec_scroll_max(content_size, padding, bounds.size);
                &&& -m.width <= r.1.x <= 0
                &&& -m.height <= r.1.y <= 0
                &&& content_size.width + padding.width <= bounds.size.width ==> r.1.x == 0
                &&& content_size.height + padding.height <= bounds.size.height ==> r.1.y == 0
            }),
            // Where the offset cell lives and how it changed: the
            // handle's entry keeps its recorded geometry, takes the
            // configured overflow, and its offset is the prior offset
            // (zero for a fresh entry) clamped into range.
            old(self).tracked_scroll_handle matches Some(sh) ==> {
                let prior_offset = match old(scrolls).spec_get(sh) {
                    Some(s) => s.offset,
                    None => Point { x: 0, y: 0 },
                };
                let m = spec_scroll_max(content_size, padding, bounds.size);
                &&& final(scrolls).spec_get(sh) matches Some(s2) && s2.offset == r.1
                    && s2.overflow == old(self).base_overflow && s2.child_bounds@ == (
                match old(scrolls).spec_get(sh) {
                    Some(s) => s.child_bounds@,
                    None => Seq::<Bounds>::empty(),
                }) && s2.bounds == (match old(scrolls).spec_get(sh) {
                    Some(s) => s.bounds,
                    None => Bounds {
                        origin: Point { x: 0, y: 0 },
                        size: Size { width: 0, height: 0 },
                    },
                }) && s2.requested_scroll_top == (match old(scrolls).spec_get(sh) {
                    Some(s) => s.requested_scroll_top,
                    None => None::<(usize, i64)>,
                })
                &&& r.1.x == crate::geometry::spec_clamp(prior_offset.x as int, -m.width, 0)
                &&& r.1.y == crate::geometry::spec_clamp(prior_offset.y as int, -m.height, 0)
                &&& forall|k: u64|
                    k != sh ==> final(scrolls).spec_get(k) == old(scrolls).spec_get(k)
            },
            old(self).tracked_scroll_handle is None ==> forall|k: u64|
                final(scrolls).spec_get(k) == old(scrolls).spec_get(k),
            (old(self).tracked_scroll_handle is None && old(self).scroll_offset_from_element_state
                && old(self).element_id is Some)
                ==> final(store).spec_state(old(self).element_id->0).scroll_offset == Some(r.1),
            old(self).tracked_scroll_handle is None && !(old(self).scroll_offset_from_element_state
                && old(self).element_id is Some) ==> r.1 == (Point { x: 0, y: 0 }),
            // Persistent state is read, not restructured: only the
            // scroll offset cell of this identity may change.
            forall|k: u64|
                (old(self).element_id is None || k != old(self).element_id->0)
                    ==> final(store).spec_state(k) == old(store).spec_state(k),
            old(self).element_id matches Some(id) ==> final(store).spec_state(id)
                == (InteractiveElementState {
                scroll_offset: final(store).spec_state(id).scroll_offset,
                ..old(store).spec_state(id)
            }),
            // Configuration updates surfaced for the paint phase.
            *final(self) == (Interactivity {
                content_size,
                active: final(self).active,
                tooltip_id: final(self).tooltip_id,
                ..*old(self)
            }),
            old(self).element_id matches Some(id) ==> final(self).active == Some(
                old(store).spec_state(id).clicked_state.element,
            ),
            old(self).element_id is None ==> final(self).active == old(self).active,
    {
        self.content_size = content_size;
        match self.tracked_focus_handle {
            Some(h) => frame.set_focus_handle(h),
            None => {},
        }
        let mut element_state: Option<InteractiveElementState> = None;
        match self.element_id {
            Some(id) => {
                let st = store.get(id);
                self.active = Some(st.clicked_state.element);
                match &st.active_tooltip {
                    Some(active) => {
                        match &active.tooltip {
                            Some(view) => {
                                let tid = frame.set_tooltip(*view);
                                self.tooltip_id = Some(tid);
                            },
                            None => {},
                        }
                    },
                    None => {},
                }
                element_state = Some(st);
            },
            None => {},
        }
        let hitbox: Option<Hitbox> = if self.should_insert_hitbox() {
            Some(frame.insert_hitbox(bounds, self.occlude_mouse))
        } else {
            None
        };
        let scroll_offset: Point = match self.tracked_scroll_handle {
            Some(sh) => {
                let mut sst = match scrolls.take(sh) {
                    Some(s) => s,
                    None => ScrollHandleState::new(),
                };
                sst.overflow = self.base_overflow;
                clamp_scroll_offset(&mut sst.offset, content_size, padding, bounds.size);
                let off = sst.offset;
                scrolls.set(sh, sst);
                off
            },
            None => {
                if self.scroll_offset_from_element_state && self.element_id.is_some() {
                    match (self.element_id, element_state) {
                        (Some(id), Some(mut st)) => {
                            let mut off = match st.scroll_offset {
                                Some(o) => o,
                                None => Point { x: 0, y: 0 },
                            };
                            clamp_scroll_offset(&mut off, content_size, padding, bounds.size);
                            st.scroll_offset = Some(off);
                            store.set(id, st);
                            off
                        },
                        _ => Point { x: 0, y: 0 },
                    }
                } else {
                    Point { x: 0, y: 0 }
                }
            },
        };
        (hitbox, scroll_offset)
    }
}

/// Move every pointer listener of one category onto the frame, tagged
/// with the element's hitbox, in declaration order. The source table is
/// left empty: a listener bound once cannot be bound again this frame.
fn drain_pointer_listeners(
    src: &mut Vec<crate::interaction::PointerListener>,
    dst: &mut Vec<BoundPointerListener>,
    hitbox_id: u64,
)
    ensures
        final(dst)@ == old(dst)@ + old(src)@.map_values(
            |l: crate::interaction::PointerListener|
                BoundPointerListener { hitbox: hitbox_id, listener: l },
        ),
        final(src)@.len() == 0,
{
    let ghost src0 = src@;
    let ghost dst0 = dst@;
    let mut i: usize = 0;
    while i < src.len()
        invariant
            i <= src@.len(),
            src@ == src0,
            dst@ == dst0 + src0.take(i as int).map_values(
                |l: crate::interaction::PointerListener|
                    BoundPointerListener { hitbox: hitbox_id, listener: l },
            ),
        decreases src@.len() - i,
    {
        dst.push(BoundPointerListener { hitbox: hitbox_id, listener: src[i] });
        proof {
            assert(dst@ =~= dst0 + src0.take(i as int + 1).map_values(
                |l: crate::interaction::PointerListener|
                    BoundPointerListener { hitbox: hitbox_id, listener: l },
            ));
        }
        i = i + 1;
    }
    src.clear();
    proof {
        assert(src0.take(src0.len() as int) =~= src0);
    }
}

impl Interactivity {
    /// Paint this element against its hitbox: record whether it is
    /// hovered, compute its current style layers, request its cursor
    /// style, and bind every declared listener and stateful reaction to
    /// the frame, draining the configuration so that each listener
    /// fires at most once per frame. The named-group push and pop that
    /// bracket the children happen in [`Div::paint`].
    pub fn paint(
        &mut self,
        store: &StateStore,
        frame: &mut Frame,
        cx: &Context,
        hitbox: Option<&Hitbox>,
        can_drop: bool,
    ) -> (layers: Vec<StyleLayer>)
        requires
            old(frame).wf(),
        ensures
            final(frame).wf(),
            final(frame).groups == old(frame).groups,
            final(frame).hitboxes@ == old(frame).hitboxes@,
            final(frame).mouse_position == old(frame).mouse_position,
            // Hover is recorded against the current pointer position;
            // an element without a hitbox this frame has no hover.
            final(self).hovered == match hitbox {
                Some(hb) => Some(old(frame).spec_hovered(hb.id)),
                None => None::<bool>,
            },
            // The style layers for this frame.
            layers@ == spec_compute_style(
                Interactivity { hovered: final(self).hovered, ..*old(self) },
                *cx,
                old(frame).groups,
                old(frame).spec_hit(),
                match hitbox {
                    Some(hb) => Some(hb.id),
                    None => None,
                },
                if old(self).element_id is Some {
                    store.spec_state(old(self).element_id->0).clicked_state
                } else {
                    crate::element_state::ElementClickedState { group: false, element: false }
                },
                can_drop,
            ),
            // Every listener table is drained into the frame.
            final(self).mouse_down_listeners@.len() == 0,
            final(self).mouse_up_listeners@.len() == 0,
            final(self).mouse_move_listeners@.len() == 0,
            final(self).scroll_wheel_listeners@.len() == 0,
            final(self).key_down_listeners@.len() == 0,
            final(self).key_up_listeners@.len() == 0,
            final(self).modifiers_changed_listeners@.len() == 0,
            final(self).action_listeners@.len() == 0,
            final(self).click_listeners@.len() == 0,
            final(self).drop_listeners@.len() == 0,
            final(self).drag_listener is None,
            final(self).hover_listener is None,
            final(self).tooltip_builder is None,
            // Pointer listeners land on the frame tagged with the
            // hitbox, in declaration order; without a hitbox they are
            // discarded with the rest of the configuration.
            hitbox matches Some(hb) ==> {
                &&& final(frame).mouse_down_listeners@ == old(frame).mouse_down_listeners@
                    + old(self).mouse_down_listeners@.map_values(
                    |l: crate::interaction::PointerListener|
                        BoundPointerListener { hitbox: hb.id, listener: l },
                )
                &&& final(frame).mouse_up_listeners@ == old(frame).mouse_up_listeners@ + old(
                    self,
                ).mouse_up_listeners@.map_values(
                    |l: crate::interaction::PointerListener|
                        BoundPointerListener { hitbox: hb.id, listener: l },
                )
                &&& final(frame).mouse_move_listeners@ == old(frame).mouse_move_listeners@ + old(
                    self,
                ).mouse_move_listeners@.map_values(
                    |l: crate::interaction::PointerListener|
                        BoundPointerListener { hitbox: hb.id, listener: l },
                )
                &&& final(frame).scroll_wheel_listeners@ == old(frame).scroll_wheel_listeners@
                    + old(self).scroll_wheel_listeners@.map_values(
                    |l: crate::interaction::PointerListener|
                        BoundPointerListener { hitbox: hb.id, listener: l },
                )
            },
            hitbox is None ==> final(frame).mouse_down_listeners@ == old(
                frame,
            ).mouse_down_listeners@ && final(frame).mouse_up_listeners@ == old(
                frame,
            ).mouse_up_listeners@ && final(frame).mouse_move_listeners@ == old(
                frame,
            ).mouse_move_listeners@ && final(frame).scroll_wheel_listeners@ == old(
                frame,
            ).scroll_wheel_listeners@,
            // Keyboard and action listeners bind with or without a
            // hitbox.
            final(frame).key_down_listeners@ == old(frame).key_down_listeners@ + old(
                self,
            ).key_down_listeners@,
            final(frame).key_up_listeners@ == old(frame).key_up_listeners@ + old(
                self,
            ).key_up_listeners@,
            final(frame).modifiers_changed_listeners@ == old(frame).modifiers_changed_listeners@
                + old(self).modifiers_changed_listeners@,
            final(frame).action_listeners@ == old(frame).action_listeners@ + old(
                self,
            ).action_listeners@,
            // A scrollable element binds its wheel reaction.
            ({
                let source = if old(self).tracked_scroll_handle is Some {
                    Some(ScrollSource::Handle(old(self).tracked_scroll_handle->0))
                } else if old(self).scroll_offset_from_element_state && old(
                    self,
                ).element_id is Some {
                    Some(ScrollSource::Element(old(self).element_id->0))
                } else {
                    None::<ScrollSource>
                };
                if hitbox is Some && source is Some {
                    final(frame).scroll_bindings@ == old(frame).scroll_bindings@.push(
                        BoundScroll {
                            hitbox: hitbox->0.id,
                            source: source->0,
                            overflow: old(self).base_overflow,
                            allow_concurrent_scroll: old(self).allow_concurrent_scroll,
                        },
                    )
                } else {
                    final(frame).scroll_bindings@ == old(frame).scroll_bindings@
                }
            }),
            // An element with a hitbox binds its stateful reactions,
            // with the group-active group resolved now, against the
            // groups as pushed so far.
            hitbox matches Some(hb) ==> final(frame).gestures@.len() == old(
                frame,
            ).gestures@.len() + 1 && final(frame).gestures@.last() == (BoundGesture {
                hitbox: hb.id,
                element_id: old(self).element_id,
                focus_handle: old(self).tracked_focus_handle,
                click_listeners: final(frame).gestures@.last().click_listeners,
                drag_listener: old(self).drag_listener,
                hover_listener: old(self).hover_listener,
                tooltip: old(self).tooltip_builder,
                tooltip_id: old(self).tooltip_id,
                drop_listeners: final(frame).gestures@.last().drop_listeners,
                can_drop_predicate: old(self).can_drop_predicate,
                group_active_hitbox: final(frame).gestures@.last().group_active_hitbox,
                was_clicked: if old(self).element_id is Some {
                    store.spec_state(old(self).element_id->0).clicked_state.group || store.spec_state(
                        old(self).element_id->0,
                    ).clicked_state.element
                } else {
                    false
                },
            }) && final(frame).gestures@.last().click_listeners@ == old(self).click_listeners@
                && final(frame).gestures@.last().drop_listeners@ == old(self).drop_listeners@
                && final(frame).gestures@.last().group_active_hitbox == (
            if old(self).group_active_style is Some && old(frame).groups.spec_stack(
                old(self).group_active_style->0.group@,
            ).len() > 0 {
                Some(old(frame).groups.spec_stack(old(self).group_active_style->0.group@).last())
            } else {
                None::<u64>
            }),
            hitbox is None ==> final(frame).gestures@ == old(frame).gestures@,
            forall|k: int|
                0 <= k < old(frame).gestures@.len() ==> final(frame).gestures@[k] == old(
                    frame,
                ).gestures@[k],
            // Cursor style requested only while no drag is active, and
            // otherwise left alone.
            hitbox matches Some(hb) ==> ((!cx.spec_has_active_drag() && old(
                self,
            ).mouse_cursor is Some) ==> final(frame).cursor_styles@ == old(
                frame,
            ).cursor_styles@.push((hb.id, old(self).mouse_cursor->0))),
            (hitbox is None || cx.spec_has_active_drag() || old(self).mouse_cursor is None)
                ==> final(frame).cursor_styles@ == old(frame).cursor_styles@,
            // The element's key dispatch context is registered.
            final(frame).key_context_registrations@ == if old(self).key_context is Some {
                old(frame).key_context_registrations@.push(old(self).key_context->0)
            } else {
                old(frame).key_context_registrations@
            },
    {
        let clicked = match self.element_id {
            Some(id) => store.get(id).clicked_state,
            None => crate::element_state::ElementClickedState { group: false, element: false },
        };
        let hitbox_id: Option<u64> = match hitbox {
            Some(hb) => {
                self.hovered = Some(frame.is_hovered(hb.id));
                Some(hb.id)
            },
            None => {
                self.hovered = None;
                None
            },
        };
        let hit = frame.hit();
        let layers = compute_style(self, cx, &frame.groups, &hit, hitbox_id, clicked, can_drop);
        match hitbox {
            Some(hb) => {
                if !cx.has_active_drag() {
                    match self.mouse_cursor {
                        Some(c) => frame.set_cursor_style(c, hb.id),
                        None => {},
                    }
                }
                drain_pointer_listeners(
                    &mut self.mouse_down_listeners,
                    &mut frame.mouse_down_listeners,
                    hb.id,
                );
                drain_pointer_listeners(
                    &mut self.mouse_up_listeners,
                    &mut frame.mouse_up_listeners,
                    hb.id,
                );
                drain_pointer_listeners(
                    &mut self.mouse_move_listeners,
                    &mut frame.mouse_move_listeners,
                    hb.id,
                );
                drain_pointer_listeners(
                    &mut self.scroll_wheel_listeners,
                    &mut frame.scroll_wheel_listeners,
                    hb.id,
                );
                let scroll_source: Option<ScrollSource> = match self.tracked_scroll_handle {
                    Some(sh) => Some(ScrollSource::Handle(sh)),
                    None => {
                        if self.scroll_offset_from_element_state && self.element_id.is_some() {
                            match self.element_id {
                                Some(id) => Some(ScrollSource::Element(id)),
                                None => None,
                            }
                        } else {
                            None
                        }
                    },
                };
                match scroll_source {
                    Some(source) => {
                        frame.scroll_bindings.push(
                            BoundScroll {
                                hitbox: hb.id,
                                source,
                                overflow: self.base_overflow,
                                allow_concurrent_scroll: self.allow_concurrent_scroll,
                            },
                        );
                    },
                    None => {},
                }
                let group_active_hitbox: Option<u64> = match &self.group_active_style {
                    Some(gs) => frame.groups.get(&gs.group),
                    None => None,
                };
                let click_listeners = self.click_listeners.split_off(0);
                let drop_listeners = self.drop_listeners.split_off(0);
                let drag_listener = self.drag_listener.take();
                let hover_listener = self.hover_listener.take();
                let tooltip = self.tooltip_builder.take();
                let can_drop_predicate = self.can_drop_predicate.take();
                frame.gestures.push(
                    BoundGesture {
                        hitbox: hb.id,
                        element_id: self.element_id,
                        focus_handle: self.tracked_focus_handle,
                        click_listeners,
                        drag_listener,
                        hover_listener,
                        tooltip,
                        tooltip_id: self.tooltip_id,
                        drop_listeners,
                        can_drop_predicate,
                        group_active_hitbox,
                        was_clicked: clicked.group || clicked.element,
                    },
                );
            },
            None => {
                self.mouse_down_listeners.clear();
                self.mouse_up_listeners.clear();
                self.mouse_move_listeners.clear();
                self.scroll_wheel_listeners.clear();
                self.click_listeners.clear();
                self.drop_listeners.clear();
                self.drag_listener = None;
                self.hover_listener = None;
                self.tooltip_builder = None;
            },
        }
        // Keyboard and action listeners bind regardless of the hitbox.
        match self.key_context {
            Some(context) => frame.set_key_context(context),
            None => {},
        }
        let key_down = self.key_down_listeners.split_off(0);
        let key_up = self.key_up_listeners.split_off(0);
        let modifiers = self.modifiers_changed_listeners.split_off(0);
        let actions = self.action_listeners.split_off(0);
        append_key_listeners(&mut frame.key_down_listeners, key_down);
        append_key_listeners(&mut frame.key_up_listeners, key_up);
        append_u64s(&mut frame.modifiers_changed_listeners, modifiers);
        append_actions(&mut frame.action_listeners, actions);
        layers
    }
}

/// Append every key listener, preserving order.
fn append_key_listeners(
    dst: &mut Vec<crate::interaction::KeyListener>,
    src: Vec<crate::interaction::KeyListener>,
)
    ensures
        final(dst)@ == old(dst)@ + src@,
{
    let ghost dst0 = dst@;
    let mut i: usize = 0;
    while i < src.len()
        invariant
            i <= src@.len(),
            dst@ == dst0 + src@.take(i as int),
        decreases src@.len() - i,
    {
        dst.push(src[i]);
        proof {
            assert(dst@ =~= dst0 + src@.take(i as int + 1));
        }
        i = i + 1;
    }
    proof {
        assert(src@.take(src@.len() as int) =~= src@);
    }
}

/// Append every handler token, preserving order.
fn append_u64s(dst: &mut Vec<u64>, src: Vec<u64>)
    ensures
        final(dst)@ == old(dst)@ + src@,
{
    let ghost dst0 = dst@;
    let mut i: usize = 0;
    while i < src.len()
        invariant
            i <= src@.len(),
            dst@ == dst0 + src@.take(i as int),
        decreases src@.len() - i,
    {
        dst.push(src[i]);
        proof {
            assert(dst@ =~= dst0 + src@.take(i as int + 1));
        }
        i = i + 1;
    }
    proof {
        assert(src@.take(src@.len() as int) =~= src@);
    }
}

/// Append every action listener, preserving order.
fn append_actions(
    dst: &mut Vec<crate::interaction::ActionListener>,
    src: Vec<crate::interaction::ActionListener>,
)
    ensures
        final(dst)@ == old(dst)@ + src@,
{
    let ghost dst0 = dst@;
    let mut i: usize = 0;
    while i < src.len()
        invariant
            i <= src@.len(),
            dst@ == dst0 + src@.take(i as int),
        decreases src@.len() - i,
    {
        dst.push(src[i]);
        proof {
            assert(dst@ =~= dst0 + src@.take(i as int + 1));
        }
        i = i + 1;
    }
    proof {
        assert(src@.take(src@.len() as int) =~= src@);
    }
}

/// The number of elements in a tree: the element itself and every
/// descendant.
pub open spec fn spec_size(div: Div) -> nat
    decreases div,
{
    1 + spec_size_seq(div.children@)
}

/// The total number of elements in a forest.
pub open spec fn spec_size_seq(s: Seq<Div>) -> nat
    decreases s,
{
    if s.len() == 0 {
        0nat
    } else {
        spec_size(s[0]) + spec_size_seq(s.drop_first())
    }
}

proof fn lemma_size_seq_snoc(s: Seq<Div>, i: int)
    requires
        0 <= i < s.len(),
    ensures
        spec_size_seq(s.take(i + 1)) == spec_size_seq(s.take(i)) + spec_size(s[i]),
    decreases i,
{
    let a = s.take(i + 1);
    let b = s.take(i);
    if i == 0 {
        assert(a[0] == s[0]);
        assert(a.drop_first() =~= Seq::<Div>::empty());
        assert(b =~= Seq::<Div>::empty());
    } else {
        assert(a[0] == s[0] && b[0] == s[0]);
        assert(a.drop_first() =~= s.drop_first().take(i));
        assert(b.drop_first() =~= s.drop_first().take(i - 1));
        assert(s.drop_first()[i - 1] == s[i]);
        lemma_size_seq_snoc(s.drop_first(), i - 1);
    }
}


/// The smallest child origin among the first `j` children, starting
/// from the coordinate limit on both axes as the measurement does.
pub open spec fn spec_min_upto(children: Seq<Div>, j: int) -> Point
    decreases j,
{
    if j <= 0 {
        Point { x: crate::geometry::COORD_LIMIT, y: crate::geometry::COORD_LIMIT }
    } else {
        let p = spec_min_upto(children, j - 1);
        let o = children[j - 1].bounds.origin;
        Point {
            x: if p.x <= o.x {
                p.x
            } else {
                o.x
            },
            y: if p.y <= o.y {
                p.y
            } else {
                o.y
            },
        }
    }
}

/// The largest child lower-right corner among the first `j` children,
/// starting from the origin on both axes as the measurement does.
pub open spec fn spec_max_upto(children: Seq<Div>, j: int) -> Point
    decreases j,
{
    if j <= 0 {
        Point { x: 0, y: 0 }
    } else {
        let p = spec_max_upto(children, j - 1);
        let b = children[j - 1].bounds;
        let rx = (b.origin.x + b.size.width) as i64;
        let ry = (b.origin.y + b.size.height) as i64;
        Point {
            x: if p.x >= rx {
                p.x
            } else {
                rx
            },
            y: if p.y >= ry {
                p.y
            } else {
                ry
            },
        }
    }
}

/// The content size an element reports: its own size when it has no
/// children, else componentwise the span from the smallest child
/// origin to the largest child lower-right corner, floored at zero.
pub open spec fn spec_content_size(children: Seq<Div>, own: Size) -> Size {
    if children.len() == 0 {
        own
    } else {
        let mn = spec_min_upto(children, children.len() as int);
        let mx = spec_max_upto(children, children.len() as int);
        Size {
            width: if mx.x - mn.x >= 0 {
                (mx.x - mn.x) as i64
            } else {
                0
            },
            height: if mx.y - mn.y >= 0 {
                (mx.y - mn.y) as i64
            } else {
                0
            },
        }
    }
}

/// The children's bounds, in declaration order.
pub open spec fn spec_child_bounds(children: Seq<Div>) -> Seq<Bounds> {
    children.map_values(|c: Div| c.bounds)
}

/// The offset after resolving a pending logical-scroll request against
/// the first `k` children: once the named child (with a representable
/// pixel offset) has been passed, the offset points its top left at the
/// container's, shifted down by the requested pixels; otherwise the
/// prior offset stands.
pub open spec fn spec_resolved_offset(
    requested: Option<(usize, i64)>,
    prior_offset: Point,
    children: Seq<Div>,
    origin: Point,
    k: int,
) -> Point {
    match requested {
        Some(req) => {
            if req.0 < k && -0x1_0000_0000 <= req.1 <= 0x1_0000_0000 {
                Point {
                    x: (origin.x - children[req.0 as int].bounds.origin.x) as i64,
                    y: (origin.y - children[req.0 as int].bounds.origin.y + req.1) as i64,
                }
            } else {
                prior_offset
            }
        },
        None => prior_offset,
    }
}

/// Whether any element of the tree tracks the given scroll handle.
pub open spec fn spec_subtree_tracks(div: Div, sh: u64) -> bool
    decreases div,
{
    div.interactivity.tracked_scroll_handle == Some(sh) || exists|i: int|
        0 <= i < div.children@.len() && spec_subtree_tracks(#[trigger] div.children@[i], sh)
}

/// Every element of the tree holds a hitbox exactly when its
/// configuration needs mouse discrimination.
pub open spec fn spec_hitboxes_assigned(div: Div) -> bool
    decreases div,
{
    &&& (div.hitbox is Some <==> div.interactivity.spec_needs_hitbox())
    &&& forall|i: int|
        0 <= i < div.children@.len() ==> spec_hitboxes_assigned(#[trigger] div.children@[i])
}

/// A container element: the central reusable element a tree of boxes is
/// built from. It carries its interaction configuration, the bounds the
/// layout engine assigned, the resolved padding of its style, the
/// hitbox prepaint created, and its children.
pub struct Div {
    /// The element's interaction configuration for this frame.
    pub interactivity: Interactivity,
    /// Bounds assigned by the external layout engine, recorded by the
    /// embedding before prepaint.
    pub bounds: Bounds,
    /// The style's resolved padding, used when clamping the scroll
    /// offset.
    pub padding: Size,
    /// The hitbox created during prepaint, consumed by paint.
    pub hitbox: Option<Hitbox>,
    /// The embedding's verdict of this element's drop veto predicate
    /// for the currently dragged value; `true` when the element has no
    /// predicate.
    pub can_drop: bool,
    /// The children, painted in declaration order.
    pub children: Vec<Div>,
}

impl Div {
    /// All geometry of the tree is well formed and stays within the
    /// coordinate range on every edge.
    pub open spec fn wf(self) -> bool
        decreases self,
    {
        &&& self.bounds.wf()
        &&& self.bounds.spec_right() <= crate::geometry::COORD_LIMIT
        &&& self.bounds.spec_bottom() <= crate::geometry::COORD_LIMIT
        &&& self.padding.wf()
        &&& forall|i: int| 0 <= i < self.children@.len() ==> (#[trigger] self.children@[i]).wf()
    }

    /// An empty container: a fresh configuration, no bounds yet, no
    /// children.
    pub fn new() -> (r: Div)
        ensures
            r.wf(),
            r.children@.len() == 0,
            r.hitbox is None,
    {
        Div {
            interactivity: Interactivity::new(),
            bounds: Bounds { origin: Point { x: 0, y: 0 }, size: Size { width: 0, height: 0 } },
            padding: Size { width: 0, height: 0 },
            hitbox: None,
            can_drop: true,
            children: Vec::new(),
        }
    }

    /// Request layout for this element and its children, depth first:
    /// each element's style layers are appended to `styles` in visit
    /// order, for the embedding to hand to the layout engine.
    pub fn request_layout(
        &mut self,
        store: &mut StateStore,
        cx: &mut Context,
        frame: &Frame,
        styles: &mut Vec<Vec<StyleLayer>>,
    )
        requires
            old(store).wf(),
        ensures
            final(store).wf(),
            final(styles)@.len() == old(styles)@.len() + spec_size(*old(self)),
            forall|k: int|
                0 <= k < old(styles)@.len() ==> final(styles)@[k] == old(styles)@[k],
            // This element's own style layers come first, computed with
            // no geometry against its configuration and state after the
            // migrations.
            ({
                let st0 = old(store).spec_state(old(self).interactivity.element_id->0);
                let cfg = spec_request_layout_config(old(self).interactivity, st0, *old(cx));
                let cx1 = Context {
                    next_focus_handle: spec_request_layout_counter(
                        old(self).interactivity,
                        st0,
                        *old(cx),
                    ),
                    ..*old(cx)
                };
                final(styles)@[old(styles)@.len() as int]@ == spec_compute_style(
                    cfg,
                    cx1,
                    frame.groups,
                    Seq::empty(),
                    None,
                    if old(self).interactivity.element_id is Some {
                        spec_request_layout_state(st0, old(self).interactivity, *old(cx)).clicked_state
                    } else {
                        crate::element_state::ElementClickedState { group: false, element: false }
                    },
                    false,
                )
            }),
        decreases *old(self),
    {
        let ghost styles0 = old(styles)@;
        let layers = self.interactivity.request_layout(store, cx, frame);
        styles.push(layers);
        let ghost own_entry = styles@[styles0.len() as int];
        let ghost children0 = old(self).children@;
        let mut i: usize = 0;
        while i < self.children.len()
            invariant
                i <= self.children@.len(),
                children0 == old(self).children@,
                self.children@.len() == children0.len(),
                store.wf(),
                forall|k: int| i <= k < children0.len() ==> self.children@[k] == children0[k],
                styles@.len() == styles0.len() + 1 + spec_size_seq(children0.take(i as int)),
                forall|k: int| 0 <= k < styles0.len() ==> styles@[k] == styles0[k],
                styles@[styles0.len() as int] == own_entry,
            decreases self.children@.len() - i,
        {
            let ghost before = self.children@;
            let ghost styles_before = styles@;
            let mut child = self.children.remove(i);
            proof {
                assert(child == children0[i as int]);
                assert(decreases_to!(*old(self) => old(self).children));
                assert(decreases_to!(old(self).children => old(self).children@));
                assert(decreases_to!(old(self).children@ => old(self).children@[i as int]));
            }
            child.request_layout(store, cx, frame, styles);
            self.children.insert(i, child);
            proof {
                assert forall|k: int| i + 1 <= k < children0.len() implies self.children@[k]
                    == children0[k] by {
                    assert(self.children@[k] == before[k]);
                }
                lemma_size_seq_snoc(children0, i as int);
                assert(styles@[styles0.len() as int] == styles_before[styles0.len() as int]);
            }
            i = i + 1;
        }
        proof {
            assert(children0.take(children0.len() as int) =~= children0);
        }
    }

    /// Prepaint this element and its children, depth first: measure the
    /// content from the children's bounds, record the container and
    /// per-child bounds and consume a pending logical scroll request for
    /// a scroll-tracked element, record an anchored element's origin,
    /// insert the hitbox if one is needed, and clamp the scroll offset.
    pub fn prepaint(
        &mut self,
        store: &mut StateStore,
        scrolls: &mut Store<ScrollHandleState>,
        frame: &mut Frame,
    )
        requires
            old(store).wf(),
            old(scrolls).wf(),
            old(frame).wf(),
            old(self).wf(),
        ensures
            final(store).wf(),
            final(scrolls).wf(),
            final(frame).wf(),
            final(frame).groups == old(frame).groups,
            final(frame).mouse_position == old(frame).mouse_position,
            final(self).children@.len() == old(self).children@.len(),
            // Every element of the tree decided its hitbox: present
            // exactly where the configuration needs mouse
            // discrimination.
            spec_hitboxes_assigned(*final(self)),
            // The content measured from the children and recorded in
            // the configuration.
            final(self).interactivity.content_size == spec_content_size(
                old(self).children@,
                old(self).bounds.size,
            ),
            // An anchored element records its origin for a later
            // scroll-to.
            final(self).interactivity.scroll_anchor == (match old(
                self,
            ).interactivity.scroll_anchor {
                Some(a) => Some(
                    crate::scroll::ScrollAnchor {
                        handle: a.handle,
                        last_origin: old(self).bounds.origin,
                    },
                ),
                None => None,
            }),
            // The element gets a hitbox exactly when it needs mouse
            // discrimination, inserted before any child's.
            old(self).interactivity.spec_needs_hitbox() ==> (final(self).hitbox matches Some(hb)
                && (hb == (Hitbox {
                id: old(frame).hitboxes@.len() as u64,
                bounds: old(self).bounds,
                opaque: old(self).interactivity.occlude_mouse,
            }) && final(frame).hitboxes@.len() > old(frame).hitboxes@.len()
                && final(frame).hitboxes@[old(frame).hitboxes@.len() as int] == hb)),
            !old(self).interactivity.spec_needs_hitbox() ==> final(self).hitbox is None,
            final(frame).hitboxes@.len() >= old(frame).hitboxes@.len(),
            forall|k: int|
                0 <= k < old(frame).hitboxes@.len() ==> final(frame).hitboxes@[k] == old(
                    frame,
                ).hitboxes@[k],
            // Scroll entries that nothing in this tree tracks are
            // untouched.
            forall|k: u64|
                !spec_subtree_tracks(*old(self), k) ==> final(scrolls).spec_get(k) == old(
                    scrolls,
                ).spec_get(k),
            // A scroll-tracked element with children — whose handle no
            // child tracks too — records its geometry: the container
            // bounds, the per-child bounds in declaration order, the
            // pending logical-scroll request consumed, and the offset
            // resolved from that request and clamped into the
            // scrollable range.
            (old(self).interactivity.tracked_scroll_handle is Some && old(
                self,
            ).children@.len() > 0 && (forall|i: int|
                0 <= i < old(self).children@.len() ==> !spec_subtree_tracks(
                    #[trigger] old(self).children@[i],
                    old(self).interactivity.tracked_scroll_handle->0,
                ))) ==> ({
                let sh = old(self).interactivity.tracked_scroll_handle->0;
                let prior_offset = match old(scrolls).spec_get(sh) {
                    Some(st) => st.offset,
                    None => Point { x: 0, y: 0 },
                };
                let prior_request = match old(scrolls).spec_get(sh) {
                    Some(st) => st.requested_scroll_top,
                    None => None::<(usize, i64)>,
                };
                let resolved = spec_resolved_offset(
                    prior_request,
                    prior_offset,
                    old(self).children@,
                    old(self).bounds.origin,
                    old(self).children@.len() as int,
                );
                let m = spec_scroll_max(
                    spec_content_size(old(self).children@, old(self).bounds.size),
                    old(self).padding,
                    old(self).bounds.size,
                );
                final(scrolls).spec_get(sh) matches Some(s2) && (s2.bounds == old(self).bounds
                    && s2.child_bounds@ == spec_child_bounds(old(self).children@)
                    && s2.requested_scroll_top is None && s2.overflow == old(
                    self,
                ).interactivity.base_overflow && s2.offset.x == crate::geometry::spec_clamp(
                    resolved.x as int,
                    -m.width,
                    0,
                ) && s2.offset.y == crate::geometry::spec_clamp(resolved.y as int, -m.height, 0))
            }),
        decreases *old(self),
    {
        let ghost children0 = old(self).children@;
        match self.interactivity.scroll_anchor {
            Some(a) => {
                self.interactivity.scroll_anchor = Some(
                    crate::scroll::ScrollAnchor {
                        handle: a.handle,
                        last_origin: self.bounds.origin,
                    },
                );
            },
            None => {},
        }
        let n = self.children.len();
        let content_size: Size = if n == 0 {
            self.bounds.size
        } else {
            let mut child_min = Point {
                x: crate::geometry::COORD_LIMIT,
                y: crate::geometry::COORD_LIMIT,
            };
            let mut child_max = Point { x: 0, y: 0 };
            let mut j: usize = 0;
            while j < self.children.len()
                invariant
                    j <= self.children@.len(),
                    children0 == old(self).children@,
                    self.children@ == children0,
                    self.wf(),
                    child_min == spec_min_upto(children0, j as int),
                    child_max == spec_max_upto(children0, j as int),
                    -crate::geometry::COORD_LIMIT <= child_min.x <= crate::geometry::COORD_LIMIT,
                    -crate::geometry::COORD_LIMIT <= child_min.y <= crate::geometry::COORD_LIMIT,
                    0 <= child_max.x <= crate::geometry::COORD_LIMIT,
                    0 <= child_max.y <= crate::geometry::COORD_LIMIT,
                decreases self.children@.len() - j,
            {
                proof {
                    assert(self.children@[j as int].wf());
                }
                let cb = self.children[j].bounds;
                let lr = cb.lower_right();
                child_min.x = crate::geometry::min_i64(child_min.x, cb.origin.x);
                child_min.y = crate::geometry::min_i64(child_min.y, cb.origin.y);
                child_max.x = crate::geometry::max_i64(child_max.x, lr.x);
                child_max.y = crate::geometry::max_i64(child_max.y, lr.y);
                j = j + 1;
            }
            let measured = Size {
                width: crate::geometry::max_i64(child_max.x - child_min.x, 0),
                height: crate::geometry::max_i64(child_max.y - child_min.y, 0),
            };
            proof {
                assert(measured == spec_content_size(children0, old(self).bounds.size));
            }
            match self.interactivity.tracked_scroll_handle {
                Some(sh) => {
                    let taken = scrolls.take(sh);
                    let ghost prior = old(scrolls).spec_get(sh);
                    let mut sst = match taken {
                        Some(s) => s,
                        None => ScrollHandleState::new(),
                    };
                    let ghost prior_offset = sst.offset;
                    let ghost prior_overflow = sst.overflow;
                    sst.bounds = self.bounds;
                    sst.child_bounds = Vec::new();
                    let requested = sst.requested_scroll_top.take();
                    proof {
                        assert(prior_offset == (match prior {
                            Some(st) => st.offset,
                            None => Point { x: 0, y: 0 },
                        }));
                        assert(requested == (match prior {
                            Some(st) => st.requested_scroll_top,
                            None => None::<(usize, i64)>,
                        }));
                    }
                    let mut k: usize = 0;
                    while k < self.children.len()
                        invariant
                            k <= self.children@.len(),
                            children0 == old(self).children@,
                            self.children@ == children0,
                            self.bounds == old(self).bounds,
                            self.wf(),
                            sst.bounds == old(self).bounds,
                            sst.child_bounds@ == spec_child_bounds(children0.take(k as int)),
                            sst.requested_scroll_top is None,
                            sst.overflow == prior_overflow,
                            sst.offset == spec_resolved_offset(
                                requested,
                                prior_offset,
                                children0,
                                old(self).bounds.origin,
                                k as int,
                            ),
                        decreases self.children@.len() - k,
                    {
                        proof {
                            assert(self.children@[k as int].wf());
                        }
                        let cb = self.children[k].bounds;
                        sst.child_bounds.push(cb);
                        proof {
                            assert(sst.child_bounds@ =~= spec_child_bounds(
                                children0.take(k as int + 1),
                            ));
                        }
                        match requested {
                            Some((ix, px)) => {
                                // A pending logical scroll request is
                                // applied when it names this child; a
                                // pixel offset beyond the coordinate
                                // range is ignored as unrepresentable.
                                if ix == k && -0x1_0000_0000 <= px && px <= 0x1_0000_0000 {
                                    sst.offset = Point {
                                        x: self.bounds.origin.x - cb.origin.x,
                                        y: self.bounds.origin.y - cb.origin.y + px,
                                    };
                                }
                            },
                            None => {},
                        }
                        k = k + 1;
                    }
                    proof {
                        assert(children0.take(children0.len() as int) =~= children0);
                    }
                    scrolls.set(sh, sst);
                },
                None => {},
            }
            measured
        };
        let ghost anchor_target = self.interactivity.scroll_anchor;
        let ghost scrolls_recorded = scrolls.spec_get(
            match old(self).interactivity.tracked_scroll_handle {
                Some(sh) => sh,
                None => 0,
            },
        );
        let (hitbox, _scroll_offset) = self.interactivity.prepaint(
            store,
            scrolls,
            frame,
            self.bounds,
            content_size,
            self.padding,
        );
        self.hitbox = hitbox;
        let ghost config_after = self.interactivity;
        let ghost own_hitbox = self.hitbox;
        let ghost hitboxes_after_self = frame.hitboxes@;
        let ghost sh_entry = scrolls.spec_get(
            match old(self).interactivity.tracked_scroll_handle {
                Some(sh) => sh,
                None => 0,
            },
        );
        let ghost scrolls_after_self = *scrolls;
        let mut i: usize = 0;
        while i < self.children.len()
            invariant
                i <= self.children@.len(),
                children0 == old(self).children@,
                self.children@.len() == children0.len(),
                store.wf(),
                scrolls.wf(),
                frame.wf(),
                frame.groups == old(frame).groups,
                frame.mouse_position == old(frame).mouse_position,
                self.hitbox == own_hitbox,
                self.interactivity == config_after,
                own_hitbox == (if old(self).interactivity.spec_needs_hitbox() {
                    Some(
                        Hitbox {
                            id: old(frame).hitboxes@.len() as u64,
                            bounds: old(self).bounds,
                            opaque: old(self).interactivity.occlude_mouse,
                        },
                    )
                } else {
                    None::<Hitbox>
                }),
                config_after.spec_needs_hitbox() == old(self).interactivity.spec_needs_hitbox(),
                hitboxes_after_self.len() >= old(frame).hitboxes@.len(),
                old(self).interactivity.spec_needs_hitbox() ==> hitboxes_after_self.len() > old(
                    frame,
                ).hitboxes@.len() && hitboxes_after_self[old(frame).hitboxes@.len() as int]
                    == own_hitbox->0,
                forall|k: int|
                    0 <= k < old(frame).hitboxes@.len() ==> hitboxes_after_self[k] == old(
                        frame,
                    ).hitboxes@[k],
                frame.hitboxes@.len() >= hitboxes_after_self.len(),
                forall|k: int|
                    0 <= k < hitboxes_after_self.len() ==> frame.hitboxes@[k]
                        == hitboxes_after_self[k],
                forall|k: int| i <= k < children0.len() ==> self.children@[k] == children0[k],
                forall|k: int| 0 <= k < children0.len() ==> (#[trigger] children0[k]).wf(),
                forall|k: int|
                    0 <= k < i ==> spec_hitboxes_assigned(#[trigger] self.children@[k]),
                forall|k: u64|
                    !spec_subtree_tracks(*old(self), k) ==> scrolls.spec_get(k)
                        == scrolls_after_self.spec_get(k),
                (old(self).interactivity.tracked_scroll_handle matches Some(sh) && (forall|
                    c: int,
                |
                    0 <= c < children0.len() ==> !spec_subtree_tracks(
                        #[trigger] children0[c],
                        sh,
                    ))) ==> scrolls.spec_get(old(self).interactivity.tracked_scroll_handle->0)
                    == sh_entry,
            decreases self.children@.len() - i,
        {
            let ghost before = self.children@;
            let ghost scrolls_before = *scrolls;
            let mut child = self.children.remove(i);
            proof {
                assert(child == children0[i as int]);
                assert(decreases_to!(*old(self) => old(self).children));
                assert(decreases_to!(old(self).children => old(self).children@));
                assert(decreases_to!(old(self).children@ => old(self).children@[i as int]));
            }
            child.prepaint(store, scrolls, frame);
            self.children.insert(i, child);
            proof {
                assert forall|k: int| i + 1 <= k < children0.len() implies self.children@[k]
                    == children0[k] by {
                    assert(self.children@[k] == before[k]);
                }
                assert forall|k: u64| !spec_subtree_tracks(*old(self), k) implies scrolls.spec_get(
                    k,
                ) == scrolls_after_self.spec_get(k) by {
                    assert(!spec_subtree_tracks(children0[i as int], k)) by {
                        if spec_subtree_tracks(children0[i as int], k) {
                            assert(0 <= i < old(self).children@.len()
                                && spec_subtree_tracks(old(self).children@[i as int], k));
                        }
                    }
                    assert(scrolls.spec_get(k) == scrolls_before.spec_get(k));
                }
                if old(self).interactivity.tracked_scroll_handle is Some {
                    let sh = old(self).interactivity.tracked_scroll_handle->0;
                    if forall|c: int|
                        0 <= c < children0.len() ==> !spec_subtree_tracks(
                            #[trigger] children0[c],
                            sh,
                        ) {
                        assert(!spec_subtree_tracks(children0[i as int], sh));
                        assert(scrolls.spec_get(sh) == scrolls_before.spec_get(sh));
                    }
                }
            }
            i = i + 1;
        }
        proof {
            assert forall|k: int| 0 <= k < old(frame).hitboxes@.len() implies frame.hitboxes@[k]
                == old(frame).hitboxes@[k] by {
                assert(frame.hitboxes@[k] == hitboxes_after_self[k]);
            }
            assert(spec_hitboxes_assigned(*self)) by {
                assert(self.hitbox is Some <==> self.interactivity.spec_needs_hitbox());
                assert(forall|k: int|
                    0 <= k < self.children@.len() ==> spec_hitboxes_assigned(
                        #[trigger] self.children@[k],
                    ));
            }
        }
    }

    /// Paint this element and its children, depth first. Listeners are
    /// bound against the element's hitbox and drained; a grouped
    /// element pushes its hitbox onto its group around its children and
    /// pops it after them. Every group's stack is exactly as before the
    /// call: the push/pop discipline is balanced over any paint pass.
    /// Each element's applied style layers are appended to `styles` in
    /// paint order.
    pub fn paint(
        &mut self,
        store: &StateStore,
        frame: &mut Frame,
        cx: &Context,
        styles: &mut Vec<Vec<StyleLayer>>,
    )
        requires
            old(frame).wf(),
        ensures
            final(frame).wf(),
            GroupRegistry::spec_same_stacks(final(frame).groups, old(frame).groups),
            final(frame).hitboxes@ == old(frame).hitboxes@,
            final(frame).mouse_position == old(frame).mouse_position,
            final(styles)@.len() == old(styles)@.len() + spec_size(*old(self)),
            forall|k: int|
                0 <= k < old(styles)@.len() ==> final(styles)@[k] == old(styles)@[k],
            // This element's own style layers come first, computed
            // against the frame's hit test before any group push.
            ({
                let hovered = if old(self).hitbox is Some {
                    Some(old(frame).spec_hovered(old(self).hitbox->0.id))
                } else {
                    None::<bool>
                };
                let cfg = Interactivity { hovered, ..old(self).interactivity };
                final(styles)@[old(styles)@.len() as int]@ == spec_compute_style(
                    cfg,
                    *cx,
                    old(frame).groups,
                    old(frame).spec_hit(),
                    match old(self).hitbox {
                        Some(hb) => Some(hb.id),
                        None => None,
                    },
                    if old(self).interactivity.element_id is Some {
                        store.spec_state(old(self).interactivity.element_id->0).clicked_state
                    } else {
                        crate::element_state::ElementClickedState { group: false, element: false }
                    },
                    old(self).can_drop,
                )
            }),
            // The element's stateful reactions are bound against its
            // hitbox, before its children's.
            old(self).hitbox matches Some(hb) ==> final(frame).gestures@.len() > old(
                frame,
            ).gestures@.len() && final(frame).gestures@[old(frame).gestures@.len() as int].hitbox
                == hb.id && final(frame).gestures@[old(frame).gestures@.len() as int].element_id
                == old(self).interactivity.element_id,
            final(frame).gestures@.len() >= old(frame).gestures@.len(),
            forall|k: int|
                0 <= k < old(frame).gestures@.len() ==> final(frame).gestures@[k] == old(
                    frame,
                ).gestures@[k],
        decreases *old(self),
    {
        let hitbox = self.hitbox;
        let can_drop = self.can_drop;
        let ghost styles0 = old(styles)@;
        let ghost gestures0 = old(frame).gestures@;
        let layers = self.interactivity.paint(store, frame, cx, hitbox.as_ref(), can_drop);
        styles.push(layers);
        let ghost own_entry = styles@[styles0.len() as int];
        let ghost gestures_after_self = frame.gestures@;
        let ghost groups_at_entry = frame.groups;
        let mut pushed: Option<String> = None;
        match (&self.interactivity.group, &hitbox) {
            (Some(name), Some(hb)) => {
                let group_name: String = name.clone();
                let popped_later: String = group_name.clone();
                frame.groups.push(group_name, hb.id);
                pushed = Some(popped_later);
            },
            _ => {},
        }
        let ghost groups_pushed = frame.groups;
        let ghost children0 = old(self).children@;
        let mut i: usize = 0;
        while i < self.children.len()
            invariant
                i <= self.children@.len(),
                children0 == old(self).children@,
                self.children@.len() == children0.len(),
                frame.wf(),
                GroupRegistry::spec_same_stacks(frame.groups, groups_pushed),
                frame.hitboxes@ == old(frame).hitboxes@,
                frame.mouse_position == old(frame).mouse_position,
                forall|k: int| i <= k < children0.len() ==> self.children@[k] == children0[k],
                styles@.len() == styles0.len() + 1 + spec_size_seq(children0.take(i as int)),
                forall|k: int| 0 <= k < styles0.len() ==> styles@[k] == styles0[k],
                styles@[styles0.len() as int] == own_entry,
                frame.gestures@.len() >= gestures_after_self.len(),
                forall|k: int|
                    0 <= k < gestures_after_self.len() ==> frame.gestures@[k]
                        == gestures_after_self[k],
            decreases self.children@.len() - i,
        {
            let ghost before = self.children@;
            let ghost styles_before = styles@;
            let mut child = self.children.remove(i);
            proof {
                assert(child == children0[i as int]);
                assert(decreases_to!(*old(self) => old(self).children));
                assert(decreases_to!(old(self).children => old(self).children@));
                assert(decreases_to!(old(self).children@ => old(self).children@[i as int]));
            }
            child.paint(store, frame, cx, styles);
            self.children.insert(i, child);
            proof {
                assert forall|k: int| i + 1 <= k < children0.len() implies self.children@[k]
                    == children0[k] by {
                    assert(self.children@[k] == before[k]);
                }
                lemma_size_seq_snoc(children0, i as int);
                assert(styles@[styles0.len() as int] == styles_before[styles0.len() as int]);
            }
            i = i + 1;
        }
        proof {
            assert(children0.take(children0.len() as int) =~= children0);
        }
        match &pushed {
            Some(name) => {
                proof {
                    assert(frame.groups.spec_stack(name@).len() > 0);
                }
                frame.groups.pop(name);
                proof {
                    assert forall|n: Seq<char>| frame.groups.spec_stack(n)
                        == groups_at_entry.spec_stack(n) by {
                        if n == name@ {
                            assert(frame.groups.spec_stack(n) =~= groups_at_entry.spec_stack(n));
                        }
                    }
                }
            },
            None => {},
        }
    }
}

} // verus!
