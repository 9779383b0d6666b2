//! The per-frame window state the pipeline builds while it walks the
//! element tree: the hitboxes inserted during prepaint, the listeners
//! bound during paint, the named-group registry, tooltip and cursor
//! registrations, and the pointer position events are tested against.

use crate::element_state::TooltipView;
use crate::geometry::{Bounds, Point};
use crate::group::GroupRegistry;
use crate::hitbox::{hit_test, hit_test_contains, spec_hit_test, Hitbox};
use crate::interaction::{ActionListener, DragListener, DropListener, KeyListener,
    OverflowAxes, PointerListener, TooltipBuilder};
use vstd::prelude::*;

verus! {

/// A pointer listener bound to the frame during paint: the element's
/// listener record plus the hitbox it filters against.
#[derive(Clone, Copy, Debug, PartialEq, Eq, Structural)]
pub struct BoundPointerListener {
    /// The hitbox the listener's hover filter tests.
    pub hitbox: u64,
    /// The listener record as declared on the element.
    pub listener: PointerListener,
}

/// Where a scroll binding's offset cell lives.
#[derive(Clone, Copy, Debug, PartialEq, Eq, Structural)]
pub enum ScrollSource {
    /// In the scroll store, under a caller-held handle.
    Handle(u64),
    /// In the persistent state of the element with this identity.
    Element(u64),
}

/// A scroll-wheel reaction bound during paint for a scrollable element.
#[derive(Clone, Copy, Debug, PartialEq, Eq, Structural)]
pub struct BoundScroll {
    /// The hitbox that must be hovered for the wheel to scroll here.
    pub hitbox: u64,
    /// Where the offset cell lives.
    pub source: ScrollSource,
    /// Overflow behavior per axis, deciding which deltas apply.
    pub overflow: OverflowAxes,
    /// Whether one wheel event may move both axes.
    pub allow_concurrent_scroll: bool,
}

/// The stateful reactions of one element, bound to its hitbox during
/// paint: focus transfer, click/drag disambiguation, hover tracking,
/// tooltip scheduling, drop acceptance and the active-state flags. The
/// dispatcher drives these through the gesture and tooltip step
/// functions.
pub struct BoundGesture {
    /// The hitbox the element painted this frame.
    pub hitbox: u64,
    /// The element's stable identity; the stateful reactions exist only
    /// with one.
    pub element_id: Option<u64>,
    /// Focus handle to transfer focus to on a press.
    pub focus_handle: Option<u64>,
    /// Click listeners, fired with the completed click.
    pub click_listeners: Vec<u64>,
    /// The drag-initiation binding.
    pub drag_listener: Option<DragListener>,
    /// The hover listener.
    pub hover_listener: Option<u64>,
    /// The tooltip builder.
    pub tooltip: Option<TooltipBuilder>,
    /// The tooltip registered for this element this frame, if one is
    /// showing.
    pub tooltip_id: Option<u64>,
    /// Drop listeners by payload type.
    pub drop_listeners: Vec<DropListener>,
    /// The drop veto predicate.
    pub can_drop_predicate: Option<u64>,
    /// The innermost hitbox of the group-active group, resolved when
    /// the element painted.
    pub group_active_hitbox: Option<u64>,
    /// Whether the element was clicked when it painted, deciding
    /// whether a press arms or a release clears the active state.
    pub was_clicked: bool,
}

/// The state of one frame while the tree is prepainted and painted.
pub struct Frame {
    /// The pointer position all hover tests of this frame use.
    pub mouse_position: Point,
    /// Hitboxes inserted during prepaint, in insertion order; later
    /// entries paint on top of earlier ones. A hitbox's identity is its
    /// position in this order.
    pub hitboxes: Vec<Hitbox>,
    /// The named hitbox group registry.
    pub groups: GroupRegistry,
    /// Tooltips registered during prepaint; a tooltip's identity is its
    /// index.
    pub tooltips: Vec<TooltipView>,
    /// Cursor styles requested during paint, each against a hitbox.
    pub cursor_styles: Vec<(u64, u64)>,
    /// Focus handles whose elements asked the window to track them.
    pub focus_registrations: Vec<u64>,
    /// Key dispatch contexts registered during paint, deciding which
    /// keymap bindings apply below each element.
    pub key_context_registrations: Vec<u64>,
    /// Pointer-down listeners bound during paint, in bind order.
    pub mouse_down_listeners: Vec<BoundPointerListener>,
    /// Pointer-up listeners bound during paint.
    pub mouse_up_listeners: Vec<BoundPointerListener>,
    /// Pointer-move listeners bound during paint.
    pub mouse_move_listeners: Vec<BoundPointerListener>,
    /// Scroll wheel listeners bound during paint.
    pub scroll_wheel_listeners: Vec<BoundPointerListener>,
    /// Key-down listeners bound during paint.
    pub key_down_listeners: Vec<KeyListener>,
    /// Key-up listeners bound during paint.
    pub key_up_listeners: Vec<KeyListener>,
    /// Modifiers-changed listeners bound during paint.
    pub modifiers_changed_listeners: Vec<u64>,
    /// Action listeners bound during paint.
    pub action_listeners: Vec<ActionListener>,
    /// Scroll-wheel reactions bound during paint.
    pub scroll_bindings: Vec<BoundScroll>,
    /// Stateful per-element reactions bound during paint.
    pub gestures: Vec<BoundGesture>,
}

impl Frame {
    /// Geometry well formed and every hitbox's identity equal to its
    /// position in the insertion order, making identities unique.
    pub open spec fn wf(self) -> bool {
        &&& self.mouse_position.wf()
        &&& forall|i: int| 0 <= i < self.hitboxes@.len() ==> (#[trigger] self.hitboxes@[i]).wf()
        &&& forall|i: int|
            0 <= i < self.hitboxes@.len() ==> (#[trigger] self.hitboxes@[i]).id == i as u64
        &&& self.groups.wf()
    }

    /// The frame's hit test: the hitboxes under the pointer, topmost
    /// first, cut off below the first opaque one.
    pub open spec fn spec_hit(self) -> Seq<u64> {
        spec_hit_test(self.hitboxes@, self.mouse_position)
    }

    /// Whether the hitbox with this id is hovered in this frame.
    pub open spec fn spec_hovered(self, id: u64) -> bool {
        self.spec_hit().contains(id)
    }

    /// A fresh frame for the given pointer position: no hitboxes, no
    /// listeners, every group stack empty.
    pub fn new(mouse_position: Point) -> (r: Frame)
        requires
            mouse_position.wf(),
        ensures
            r.wf(),
            r.mouse_position == mouse_position,
            r.hitboxes@.len() == 0,
            r.groups.spec_all_unwound(),
            r.tooltips@.len() == 0,
            r.cursor_styles@.len() == 0,
            r.focus_registrations@.len() == 0,
            r.key_context_registrations@.len() == 0,
            r.mouse_down_listeners@.len() == 0,
            r.mouse_up_listeners@.len() == 0,
            r.mouse_move_listeners@.len() == 0,
            r.scroll_wheel_listeners@.len() == 0,
            r.key_down_listeners@.len() == 0,
            r.key_up_listeners@.len() == 0,
            r.modifiers_changed_listeners@.len() == 0,
            r.action_listeners@.len() == 0,
            r.scroll_bindings@.len() == 0,
            r.gestures@.len() == 0,
    {
        Frame {
            mouse_position,
            hitboxes: Vec::new(),
            groups: GroupRegistry::new(),
            tooltips: Vec::new(),
            cursor_styles: Vec::new(),
            focus_registrations: Vec::new(),
            key_context_registrations: Vec::new(),
            mouse_down_listeners: Vec::new(),
            mouse_up_listeners: Vec::new(),
            mouse_move_listeners: Vec::new(),
            scroll_wheel_listeners: Vec::new(),
            key_down_listeners: Vec::new(),
            key_up_listeners: Vec::new(),
            modifiers_changed_listeners: Vec::new(),
            action_listeners: Vec::new(),
            scroll_bindings: Vec::new(),
            gestures: Vec::new(),
        }
    }

    /// Insert a hitbox for these bounds, on top of everything inserted
    /// so far. Returns the hitbox, whose id is fresh for this frame.
    pub fn insert_hitbox(&mut self, bounds: Bounds, opaque: bool) -> (r: Hitbox)
        requires
            old(self).wf(),
            bounds.wf(),
        ensures
            final(self).wf(),
            r == (Hitbox { id: old(self).hitboxes@.len() as u64, bounds, opaque }),
            final(self).hitboxes@ == old(self).hitboxes@.push(r),
            *final(self) == (Frame { hitboxes: final(self).hitboxes, ..*old(self) }),
    {
        let hb = Hitbox { id: self.hitboxes.len() as u64, bounds, opaque };
        self.hitboxes.push(hb);
        hb
    }

    /// Compute the frame's hit test for its current pointer position.
    pub fn hit(&self) -> (r: Vec<u64>)
        requires
            self.wf(),
        ensures
            r@ == self.spec_hit(),
    {
        hit_test(&self.hitboxes, &self.mouse_position)
    }

    /// Whether the hitbox with this id is hovered: under the pointer
    /// and not behind a closer opaque hitbox.
    pub fn is_hovered(&self, id: u64) -> (r: bool)
        requires
            self.wf(),
        ensures
            r == self.spec_hovered(id),
    {
        let hit = self.hit();
        hit_test_contains(&hit, id)
    }

    /// Register an already-materialized tooltip with the window for
    /// this frame; returns its identity.
    pub fn set_tooltip(&mut self, tooltip: TooltipView) -> (r: u64)
        requires
            old(self).wf(),
        ensures
            final(self).wf(),
            final(self).tooltips@ == old(self).tooltips@.push(tooltip),
            r == old(self).tooltips@.len(),
            *final(self) == (Frame { tooltips: final(self).tooltips, ..*old(self) }),
    {
        let id = self.tooltips.len() as u64;
        self.tooltips.push(tooltip);
        id
    }

    /// Request a cursor style while the given hitbox is hovered.
    pub fn set_cursor_style(&mut self, cursor: u64, hitbox_id: u64)
        requires
            old(self).wf(),
        ensures
            final(self).wf(),
            final(self).cursor_styles@ == old(self).cursor_styles@.push((hitbox_id, cursor)),
            *final(self) == (Frame { cursor_styles: final(self).cursor_styles, ..*old(self) }),
    {
        self.cursor_styles.push((hitbox_id, cursor));
    }

    /// Register a key dispatch context for the element being painted.
    pub fn set_key_context(&mut self, context: u64)
        requires
            old(self).wf(),
        ensures
            final(self).wf(),
            final(self).key_context_registrations@ == old(self).key_context_registrations@.push(
                context,
            ),
            *final(self) == (Frame {
                key_context_registrations: final(self).key_context_registrations,
                ..*old(self)
            }),
    {
        self.key_context_registrations.push(context);
    }

    /// Note a focus handle whose element is being prepainted, so the
    /// window can maintain its focus path.
    pub fn set_focus_handle(&mut self, handle: u64)
        requires
            old(self).wf(),
        ensures
            final(self).wf(),
            final(self).focus_registrations@ == old(self).focus_registrations@.push(handle),
            *final(self) == (Frame {
                focus_registrations: final(self).focus_registrations,
                ..*old(self)
            }),
    {
        self.focus_registrations.push(handle);
    }
}

} // verus!
