//! The per-element interaction configuration: the declarative table of
//! listeners, style refinements and bindings that a caller rebuilds every
//! frame and the frame pipeline consumes during paint.
//!
//! Handler closures and style data live with the embedding application;
//! the configuration stores plain tokens for them, together with the
//! filters (phase, button, hover, payload type) that decide when each
//! fires. Registering a second hover binding, tooltip builder or drag
//! binding on one configuration is a programmer error and is excluded by
//! precondition.

use crate::context::Context;
use crate::events::{DispatchPhase, MouseButton, MouseMoveEvent};
use crate::geometry::{Bounds, Size};
use vstd::prelude::*;

verus! {

/// A caller-owned style refinement, identified by a token. The library
/// decides when each refinement applies; the application owns the style
/// data the token stands for.
#[derive(Clone, Copy, Debug, PartialEq, Eq, Structural)]
pub struct StyleRefinement {
    /// The application's token for the refinement data.
    pub token: u64,
}

/// The styling information for a given group: a named group and the
/// style refinement it applies to members reacting to that group.
#[derive(Clone, Debug)]
pub struct GroupStyle {
    /// The identifier for this group.
    pub group: String,
    /// The style refinement applied when the group condition holds.
    pub style: StyleRefinement,
}

/// How overflowing content behaves on one axis.
#[derive(Clone, Copy, Debug, PartialEq, Eq, Structural)]
pub enum Overflow {
    /// Content is shown outside the bounds.
    Visible,
    /// Content is clipped to the bounds.
    Hidden,
    /// Content is clipped and the element scrolls.
    Scroll,
}

/// Overflow behavior per axis.
#[derive(Clone, Copy, Debug, PartialEq, Eq, Structural)]
pub struct OverflowAxes {
    /// Behavior on the horizontal axis.
    pub x: Overflow,
    /// Behavior on the vertical axis.
    pub y: Overflow,
}

/// Which hover relationship a pointer listener demands at dispatch time,
/// always tested against the pointer position of the moment, not a
/// snapshot.
#[derive(Clone, Copy, Debug, PartialEq, Eq, Structural)]
pub enum HoverFilter {
    /// The element's hitbox must be hovered (inside and unoccluded).
    Hovered,
    /// The element's hitbox must not be hovered.
    NotHovered,
    /// The pointer must be outside the hitbox bounds, occluded or not.
    OutsideBounds,
    /// No hover requirement.
    Any,
}

/// A pointer listener record: the filters that decide when the
/// caller's handler fires, plus the token of that handler.
#[derive(Clone, Copy, Debug, PartialEq, Eq, Structural)]
pub struct PointerListener {
    /// The pass the listener runs in.
    pub phase: DispatchPhase,
    /// Fire only for this button; `None` accepts any button.
    pub button: Option<MouseButton>,
    /// The hover relationship required at dispatch time.
    pub hover: HoverFilter,
    /// Fire only while a drag with this payload type is active.
    pub drag_type: Option<u64>,
    /// Token for the application's handler.
    pub handler: u64,
}

/// A key event listener record.
#[derive(Clone, Copy, Debug, PartialEq, Eq, Structural)]
pub struct KeyListener {
    /// The pass the listener runs in.
    pub phase: DispatchPhase,
    /// Token for the application's handler.
    pub handler: u64,
}

/// An action listener record, matched by the dispatched action's type.
#[derive(Clone, Copy, Debug, PartialEq, Eq, Structural)]
pub struct ActionListener {
    /// Type tag of the action the listener accepts.
    pub action_type: u64,
    /// The pass the listener runs in.
    pub phase: DispatchPhase,
    /// Token for the application's handler.
    pub handler: u64,
}

/// A drop listener record, matched against the active drag's payload
/// type.
#[derive(Clone, Copy, Debug, PartialEq, Eq, Structural)]
pub struct DropListener {
    /// Payload type the listener accepts.
    pub drag_type: u64,
    /// Token for the application's handler.
    pub handler: u64,
}

/// The single drag-initiation binding of an element: the value that will
/// be dragged and the renderer for its drag image.
#[derive(Clone, Copy, Debug, PartialEq, Eq, Structural)]
pub struct DragListener {
    /// Token for the value that a successful initiation moves into the
    /// active-drag slot.
    pub value: u64,
    /// Type tag of that value.
    pub value_type: u64,
    /// Token for the renderer of the dragged value.
    pub renderer: u64,
}

/// The single tooltip binding of an element.
#[derive(Clone, Copy, Debug, PartialEq, Eq, Structural)]
pub struct TooltipBuilder {
    /// Token for the closure that builds the tooltip view.
    pub build: u64,
    /// Whether the tooltip stays visible while the pointer is over the
    /// tooltip itself.
    pub hoverable: bool,
}

/// A style refinement applied while a drag of a given payload type is
/// over this element.
#[derive(Clone, Copy, Debug, PartialEq, Eq, Structural)]
pub struct DragOverStyle {
    /// Payload type that triggers the refinement.
    pub drag_type: u64,
    /// The refinement applied.
    pub style: StyleRefinement,
}

/// A style refinement applied while a drag of a given payload type is
/// over the innermost hitbox of a named group.
#[derive(Clone, Debug)]
pub struct GroupDragOverStyle {
    /// Payload type that triggers the refinement.
    pub drag_type: u64,
    /// The group looked up and the refinement applied.
    pub style: GroupStyle,
}

/// An event for when a drag is moving over this element, carrying the
/// payload type of the drag it was registered for.
#[derive(Clone, Copy, Debug, PartialEq, Eq, Structural)]
pub struct DragMoveEvent {
    /// The mouse move event that triggered this drag move event.
    pub event: MouseMoveEvent,
    /// The bounds of this element.
    pub bounds: Bounds,
    /// Payload type of the drag this event describes.
    pub drag_type: u64,
}

impl DragMoveEvent {
    /// Build the event delivered to a drag-move listener: it carries
    /// the triggering pointer move and the listening element's hitbox
    /// bounds, whether or not the pointer is over that element.
    pub fn new(event: &MouseMoveEvent, hitbox: &crate::hitbox::Hitbox, drag_type: u64) -> (r:
        DragMoveEvent)
        ensures
            r == (DragMoveEvent { event: *event, bounds: hitbox.bounds, drag_type }),
    {
        DragMoveEvent { event: *event, bounds: hitbox.bounds, drag_type }
    }

    /// Returns the drag payload token for this event. Only valid while
    /// the stored active drag has the same payload type.
    pub fn drag(&self, cx: &Context) -> (r: u64)
        requires
            cx.active_drag matches Some(d) && d.value_type == self.drag_type,
        ensures
            cx.active_drag matches Some(d) && r == d.value,
    {
        match &cx.active_drag {
            Some(d) => d.value,
            None => 0,
        }
    }
}

/// The interaction configuration of one element for one frame: listener
/// tables keyed by event category, layered style refinements, singleton
/// hover/tooltip/drag bindings, grouping, and tracked focus/scroll
/// handles.
#[derive(Clone, Debug)]
pub struct Interactivity {
    /// The stable identity of the element, required for stateful
    /// behavior such as clicks, drags and tooltips.
    pub element_id: Option<u64>,
    /// Whether the element was clicked; filled during prepaint from
    /// persistent state.
    pub active: Option<bool>,
    /// Whether the element was hovered; filled during paint if a hitbox
    /// was created.
    pub hovered: Option<bool>,
    /// The tooltip registered with the window for this frame, if one is
    /// already showing for this element.
    pub tooltip_id: Option<u64>,
    /// The content size recorded during prepaint.
    pub content_size: Size,
    /// Token for the key dispatch context of this element, if any.
    pub key_context: Option<u64>,
    /// Whether the element can take focus.
    pub focusable: bool,
    /// The focus handle whose state this element tracks.
    pub tracked_focus_handle: Option<u64>,
    /// The scroll state entry this element is bound to.
    pub tracked_scroll_handle: Option<u64>,
    /// An anchor that can be scrolled to inside a scrollable ancestor;
    /// prepaint records the element's origin in it.
    pub scroll_anchor: Option<crate::scroll::ScrollAnchor>,
    /// Whether the element's own persistent state supplies the scroll
    /// offset because the base style overflows with scrolling and no
    /// scroll handle is tracked; decided during request layout.
    pub scroll_offset_from_element_state: bool,
    /// The named group this element belongs to.
    pub group: Option<String>,
    /// Overflow behavior declared by the base style.
    pub base_overflow: OverflowAxes,
    /// Whether scrolling may move both axes in one wheel event.
    pub allow_concurrent_scroll: bool,
    /// Cursor style token shown while the element is hovered and no drag
    /// is active.
    pub mouse_cursor: Option<u64>,
    /// The base style refinement, always applied first.
    pub base_style: StyleRefinement,
    /// Applied while the tracked focus handle is focused.
    pub focus_style: Option<StyleRefinement>,
    /// Applied while focus lies within the tracked focus handle.
    pub in_focus_style: Option<StyleRefinement>,
    /// Applied while the element's hitbox is hovered.
    pub hover_style: Option<StyleRefinement>,
    /// Applied while the innermost hitbox of a named group is hovered.
    pub group_hover_style: Option<GroupStyle>,
    /// Applied while the element is clicked.
    pub active_style: Option<StyleRefinement>,
    /// Applied while the element's group is clicked.
    pub group_active_style: Option<GroupStyle>,
    /// Applied while a matching drag hovers this element.
    pub drag_over_styles: Vec<DragOverStyle>,
    /// Applied while a matching drag hovers a named group.
    pub group_drag_over_styles: Vec<GroupDragOverStyle>,
    /// Pointer-down listeners.
    pub mouse_down_listeners: Vec<PointerListener>,
    /// Pointer-up listeners.
    pub mouse_up_listeners: Vec<PointerListener>,
    /// Pointer-move listeners.
    pub mouse_move_listeners: Vec<PointerListener>,
    /// Scroll wheel listeners.
    pub scroll_wheel_listeners: Vec<PointerListener>,
    /// Key-down listeners.
    pub key_down_listeners: Vec<KeyListener>,
    /// Key-up listeners.
    pub key_up_listeners: Vec<KeyListener>,
    /// Modifiers-changed listeners, fired in every phase.
    pub modifiers_changed_listeners: Vec<u64>,
    /// Action listeners, matched by action type.
    pub action_listeners: Vec<ActionListener>,
    /// Drop listeners, matched by drag payload type.
    pub drop_listeners: Vec<DropListener>,
    /// Predicate token that may veto a drop.
    pub can_drop_predicate: Option<u64>,
    /// Click listeners, fired with the completed click.
    pub click_listeners: Vec<u64>,
    /// The single drag-initiation binding.
    pub drag_listener: Option<DragListener>,
    /// The single hover listener, told when hover starts and ends.
    pub hover_listener: Option<u64>,
    /// The single tooltip builder.
    pub tooltip_builder: Option<TooltipBuilder>,
    /// Whether this element blocks the mouse from elements behind it.
    pub occlude_mouse: bool,
}

impl Interactivity {
    /// A configuration with no bindings: every listener table empty,
    /// every optional binding absent, every flag off.
    pub fn new() -> (r: Interactivity)
        ensures
            r.element_id is None,
            r.active is None,
            r.hovered is None,
            r.tooltip_id is None,
            r.content_size == (Size { width: 0, height: 0 }),
            r.key_context is None,
            !r.focusable,
            r.tracked_focus_handle is None,
            r.tracked_scroll_handle is None,
            r.scroll_anchor is None,
            !r.scroll_offset_from_element_state,
            r.group is None,
            r.base_overflow == (OverflowAxes { x: Overflow::Visible, y: Overflow::Visible }),
            r.allow_concurrent_scroll,
            r.mouse_cursor is None,
            r.base_style == (StyleRefinement { token: 0 }),
            r.focus_style is None,
            r.in_focus_style is None,
            r.hover_style is None,
            r.group_hover_style is None,
            r.active_style is None,
            r.group_active_style is None,
            r.drag_over_styles@.len() == 0,
            r.group_drag_over_styles@.len() == 0,
            r.mouse_down_listeners@.len() == 0,
            r.mouse_up_listeners@.len() == 0,
            r.mouse_move_listeners@.len() == 0,
            r.scroll_wheel_listeners@.len() == 0,
            r.key_down_listeners@.len() == 0,
            r.key_up_listeners@.len() == 0,
            r.modifiers_changed_listeners@.len() == 0,
            r.action_listeners@.len() == 0,
            r.drop_listeners@.len() == 0,
            r.can_drop_predicate is None,
            r.click_listeners@.len() == 0,
            r.drag_listener is None,
            r.hover_listener is None,
            r.tooltip_builder is None,
            !r.occlude_mouse,
    {
        Interactivity {
            element_id: None,
            active: None,
            hovered: None,
            tooltip_id: None,
            content_size: Size { width: 0, height: 0 },
            key_context: None,
            focusable: false,
            tracked_focus_handle: None,
            tracked_scroll_handle: None,
            scroll_anchor: None,
            scroll_offset_from_element_state: false,
            group: None,
            base_overflow: OverflowAxes { x: Overflow::Visible, y: Overflow::Visible },
            allow_concurrent_scroll: true,
            mouse_cursor: None,
            base_style: StyleRefinement { token: 0 },
            focus_style: None,
            in_focus_style: None,
            hover_style: None,
            group_hover_style: None,
            active_style: None,
            group_active_style: None,
            drag_over_styles: Vec::new(),
            group_drag_over_styles: Vec::new(),
            mouse_down_listeners: Vec::new(),
            mouse_up_listeners: Vec::new(),
            mouse_move_listeners: Vec::new(),
            scroll_wheel_listeners: Vec::new(),
            key_down_listeners: Vec::new(),
            key_up_listeners: Vec::new(),
            modifiers_changed_listeners: Vec::new(),
            action_listeners: Vec::new(),
            drop_listeners: Vec::new(),
            can_drop_predicate: None,
            click_listeners: Vec::new(),
            drag_listener: None,
            hover_listener: None,
            tooltip_builder: None,
            occlude_mouse: false,
        }
    }

    /// Bind a handler to the mouse down event for the given button,
    /// during the bubble phase, while the element is hovered.
    pub fn on_mouse_down(&mut self, button: MouseButton, handler: u64)
        ensures
            final(self).mouse_down_listeners@ == old(self).mouse_down_listeners@.push(
                PointerListener {
                    phase: DispatchPhase::Bubble,
                    button: Some(button),
                    hover: HoverFilter::Hovered,
                    drag_type: None,
                    handler,
                },
            ),
            unchanged_except_mouse_down(old(self), final(self)),
    {
        self.mouse_down_listeners.push(
            PointerListener {
                phase: DispatchPhase::Bubble,
                button: Some(button),
                hover: HoverFilter::Hovered,
                drag_type: None,
                handler,
            },
        );
    }

    /// Bind a handler to the mouse down event for any button, during the
    /// capture phase, while the element is hovered.
    pub fn capture_any_mouse_down(&mut self, handler: u64)
        ensures
            final(self).mouse_down_listeners@ == old(self).mouse_down_listeners@.push(
                PointerListener {
                    phase: DispatchPhase::Capture,
                    button: None,
                    hover: HoverFilter::Hovered,
                    drag_type: None,
                    handler,
                },
            ),
            unchanged_except_mouse_down(old(self), final(self)),
    {
        self.mouse_down_listeners.push(
            PointerListener {
                phase: DispatchPhase::Capture,
                button: None,
                hover: HoverFilter::Hovered,
                drag_type: None,
                handler,
            },
        );
    }

    /// Bind a handler to the mouse down event for any button, during the
    /// bubble phase, while the element is hovered.
    pub fn on_any_mouse_down(&mut self, handler: u64)
        ensures
            final(self).mouse_down_listeners@ == old(self).mouse_down_listeners@.push(
                PointerListener {
                    phase: DispatchPhase::Bubble,
                    button: None,
                    hover: HoverFilter::Hovered,
                    drag_type: None,
                    handler,
                },
            ),
            unchanged_except_mouse_down(old(self), final(self)),
    {
        self.mouse_down_listeners.push(
            PointerListener {
                phase: DispatchPhase::Bubble,
                button: None,
                hover: HoverFilter::Hovered,
                drag_type: None,
                handler,
            },
        );
    }

    /// Bind a handler to the mouse down event for any button, during the
    /// capture phase, when the pointer is outside the element's bounds.
    pub fn on_mouse_down_out(&mut self, handler: u64)
        ensures
            final(self).mouse_down_listeners@ == old(self).mouse_down_listeners@.push(
                PointerListener {
                    phase: DispatchPhase::Capture,
                    button: None,
                    hover: HoverFilter::OutsideBounds,
                    drag_type: None,
                    handler,
                },
            ),
            unchanged_except_mouse_down(old(self), final(self)),
    {
        self.mouse_down_listeners.push(
            PointerListener {
                phase: DispatchPhase::Capture,
                button: None,
                hover: HoverFilter::OutsideBounds,
                drag_type: None,
                handler,
            },
        );
    }

    /// Bind a handler to the mouse up event for the given button, during
    /// the bubble phase, while the element is hovered.
    pub fn on_mouse_up(&mut self, button: MouseButton, handler: u64)
        ensures
            final(self).mouse_up_listeners@ == old(self).mouse_up_listeners@.push(
                PointerListener {
                    phase: DispatchPhase::Bubble,
                    button: Some(button),
                    hover: HoverFilter::Hovered,
                    drag_type: None,
                    handler,
                },
            ),
            unchanged_except_mouse_up(old(self), final(self)),
    {
        self.mouse_up_listeners.push(
            PointerListener {
                phase: DispatchPhase::Bubble,
                button: Some(button),
                hover: HoverFilter::Hovered,
                drag_type: None,
                handler,
            },
        );
    }

    /// Bind a handler to the mouse up event for any button, during the
    /// capture phase, while the element is hovered.
    pub fn capture_any_mouse_up(&mut self, handler: u64)
        ensures
            final(self).mouse_up_listeners@ == old(self).mouse_up_listeners@.push(
                PointerListener {
                    phase: DispatchPhase::Capture,
                    button: None,
                    hover: HoverFilter::Hovered,
                    drag_type: None,
                    handler,
                },
            ),
            unchanged_except_mouse_up(old(self), final(self)),
    {
        self.mouse_up_listeners.push(
            PointerListener {
                phase: DispatchPhase::Capture,
                button: None,
                hover: HoverFilter::Hovered,
                drag_type: None,
                handler,
            },
        );
    }

    /// Bind a handler to the mouse up event for any button, during the
    /// bubble phase, while the element is hovered.
    pub fn on_any_mouse_up(&mut self, handler: u64)
        ensures
            final(self).mouse_up_listeners@ == old(self).mouse_up_listeners@.push(
                PointerListener {
                    phase: DispatchPhase::Bubble,
                    button: None,
                    hover: HoverFilter::Hovered,
                    drag_type: None,
                    handler,
                },
            ),
            unchanged_except_mouse_up(old(self), final(self)),
    {
        self.mouse_up_listeners.push(
            PointerListener {
                phase: DispatchPhase::Bubble,
                button: None,
                hover: HoverFilter::Hovered,
                drag_type: None,
                handler,
            },
        );
    }

    /// Bind a handler to the mouse up event for the given button, during
    /// the capture phase, when the element is not hovered.
    pub fn on_mouse_up_out(&mut self, button: MouseButton, handler: u64)
        ensures
            final(self).mouse_up_listeners@ == old(self).mouse_up_listeners@.push(
                PointerListener {
                    phase: DispatchPhase::Capture,
                    button: Some(button),
                    hover: HoverFilter::NotHovered,
                    drag_type: None,
                    handler,
                },
            ),
            unchanged_except_mouse_up(old(self), final(self)),
    {
        self.mouse_up_listeners.push(
            PointerListener {
                phase: DispatchPhase::Capture,
                button: Some(button),
                hover: HoverFilter::NotHovered,
                drag_type: None,
                handler,
            },
        );
    }

    /// Bind a handler to the mouse move event, during the bubble phase,
    /// while the element is hovered.
    pub fn on_mouse_move(&mut self, handler: u64)
        ensures
            final(self).mouse_move_listeners@ == old(self).mouse_move_listeners@.push(
                PointerListener {
                    phase: DispatchPhase::Bubble,
                    button: None,
                    hover: HoverFilter::Hovered,
                    drag_type: None,
                    handler,
                },
            ),
            unchanged_except_mouse_move(old(self), final(self)),
    {
        self.mouse_move_listeners.push(
            PointerListener {
                phase: DispatchPhase::Bubble,
                button: None,
                hover: HoverFilter::Hovered,
                drag_type: None,
                handler,
            },
        );
    }

    /// Bind a handler to pointer moves while a drag with the given
    /// payload type is active, during the capture phase, inside or
    /// outside the element.
    pub fn on_drag_move(&mut self, drag_type: u64, handler: u64)
        ensures
            final(self).mouse_move_listeners@ == old(self).mouse_move_listeners@.push(
                PointerListener {
                    phase: DispatchPhase::Capture,
                    button: None,
                    hover: HoverFilter::Any,
                    drag_type: Some(drag_type),
                    handler,
                },
            ),
            unchanged_except_mouse_move(old(self), final(self)),
    {
        self.mouse_move_listeners.push(
            PointerListener {
                phase: DispatchPhase::Capture,
                button: None,
                hover: HoverFilter::Any,
                drag_type: Some(drag_type),
                handler,
            },
        );
    }

    /// Bind a handler to scroll wheel events, during the bubble phase,
    /// while the element is hovered.
    pub fn on_scroll_wheel(&mut self, handler: u64)
        ensures
            final(self).scroll_wheel_listeners@ == old(self).scroll_wheel_listeners@.push(
                PointerListener {
                    phase: DispatchPhase::Bubble,
                    button: None,
                    hover: HoverFilter::Hovered,
                    drag_type: None,
                    handler,
                },
            ),
            unchanged_except_scroll_wheel(old(self), final(self)),
    {
        self.scroll_wheel_listeners.push(
            PointerListener {
                phase: DispatchPhase::Bubble,
                button: None,
                hover: HoverFilter::Hovered,
                drag_type: None,
                handler,
            },
        );
    }

    /// Bind a handler to an action dispatch of the given type during the
    /// capture phase.
    pub fn capture_action(&mut self, action_type: u64, handler: u64)
        ensures
            final(self).action_listeners@ == old(self).action_listeners@.push(
                ActionListener { action_type, phase: DispatchPhase::Capture, handler },
            ),
            unchanged_except_action(old(self), final(self)),
    {
        self.action_listeners.push(
            ActionListener { action_type, phase: DispatchPhase::Capture, handler },
        );
    }

    /// Bind a handler to an action dispatch of the given type during the
    /// bubble phase.
    pub fn on_action(&mut self, action_type: u64, handler: u64)
        ensures
            final(self).action_listeners@ == old(self).action_listeners@.push(
                ActionListener { action_type, phase: DispatchPhase::Bubble, handler },
            ),
            unchanged_except_action(old(self), final(self)),
    {
        self.action_listeners.push(
            ActionListener { action_type, phase: DispatchPhase::Bubble, handler },
        );
    }

    /// Bind a handler to an action chosen at run time rather than by a
    /// type parameter, during the bubble phase.
    pub fn on_boxed_action(&mut self, action_type: u64, handler: u64)
        ensures
            final(self).action_listeners@ == old(self).action_listeners@.push(
                ActionListener { action_type, phase: DispatchPhase::Bubble, handler },
            ),
            unchanged_except_action(old(self), final(self)),
    {
        self.action_listeners.push(
            ActionListener { action_type, phase: DispatchPhase::Bubble, handler },
        );
    }

    /// Bind a handler to key down events during the bubble phase.
    pub fn on_key_down(&mut self, handler: u64)
        ensures
            final(self).key_down_listeners@ == old(self).key_down_listeners@.push(
                KeyListener { phase: DispatchPhase::Bubble, handler },
            ),
            unchanged_except_key_down(old(self), final(self)),
    {
        self.key_down_listeners.push(KeyListener { phase: DispatchPhase::Bubble, handler });
    }

    /// Bind a handler to key down events during the capture phase.
    pub fn capture_key_down(&mut self, handler: u64)
        ensures
            final(self).key_down_listeners@ == old(self).key_down_listeners@.push(
                KeyListener { phase: DispatchPhase::Capture, handler },
            ),
            unchanged_except_key_down(old(self), final(self)),
    {
        self.key_down_listeners.push(KeyListener { phase: DispatchPhase::Capture, handler });
    }

    /// Bind a handler to key up events during the bubble phase.
    pub fn on_key_up(&mut self, handler: u64)
        ensures
            final(self).key_up_listeners@ == old(self).key_up_listeners@.push(
                KeyListener { phase: DispatchPhase::Bubble, handler },
            ),
            unchanged_except_key_up(old(self), final(self)),
    {
        self.key_up_listeners.push(KeyListener { phase: DispatchPhase::Bubble, handler });
    }

    /// Bind a handler to key up events during the capture phase.
    pub fn capture_key_up(&mut self, handler: u64)
        ensures
            final(self).key_up_listeners@ == old(self).key_up_listeners@.push(
                KeyListener { phase: DispatchPhase::Capture, handler },
            ),
            unchanged_except_key_up(old(self), final(self)),
    {
        self.key_up_listeners.push(KeyListener { phase: DispatchPhase::Capture, handler });
    }

    /// Bind a handler to modifiers-changed events.
    pub fn on_modifiers_changed(&mut self, handler: u64)
        ensures
            final(self).modifiers_changed_listeners@ == old(
                self,
            ).modifiers_changed_listeners@.push(handler),
            unchanged_except_modifiers_changed(old(self), final(self)),
    {
        self.modifiers_changed_listeners.push(handler);
    }

    /// Bind a handler to drop events for drags of the given payload
    /// type, whether or not the drag started on this element.
    pub fn on_drop(&mut self, drag_type: u64, handler: u64)
        ensures
            final(self).drop_listeners@ == old(self).drop_listeners@.push(
                DropListener { drag_type, handler },
            ),
            unchanged_except_drop(old(self), final(self)),
    {
        self.drop_listeners.push(DropListener { drag_type, handler });
    }

    /// Use the given predicate to decide whether a drop is dispatched to
    /// this element.
    pub fn can_drop(&mut self, predicate: u64)
        ensures
            *final(self) == (Interactivity { can_drop_predicate: Some(predicate), ..*old(self) }),
    {
        self.can_drop_predicate = Some(predicate);
    }

    /// Bind a handler to click events of this element.
    pub fn on_click(&mut self, handler: u64)
        ensures
            final(self).click_listeners@ == old(self).click_listeners@.push(handler),
            unchanged_except_click(old(self), final(self)),
    {
        self.click_listeners.push(handler);
    }

    /// Bind a value and a renderer for drag-and-drop initiation. At most
    /// one drag binding may exist per configuration.
    pub fn on_drag(&mut self, value: u64, value_type: u64, renderer: u64)
        requires
            old(self).drag_listener is None,
        ensures
            *final(self) == (Interactivity {
                drag_listener: Some(DragListener { value, value_type, renderer }),
                ..*old(self)
            }),
    {
        self.drag_listener = Some(DragListener { value, value_type, renderer });
    }

    /// Bind a handler called when hover starts (with `true`) and ends
    /// (with `false`). At most one hover binding may exist per
    /// configuration.
    pub fn on_hover(&mut self, handler: u64)
        requires
            old(self).hover_listener is None,
        ensures
            *final(self) == (Interactivity { hover_listener: Some(handler), ..*old(self) }),
    {
        self.hover_listener = Some(handler);
    }

    /// Bind a tooltip builder shown when the pointer rests over this
    /// element. At most one tooltip builder may exist per configuration.
    pub fn tooltip(&mut self, build: u64)
        requires
            old(self).tooltip_builder is None,
        ensures
            *final(self) == (Interactivity {
                tooltip_builder: Some(TooltipBuilder { build, hoverable: false }),
                ..*old(self)
            }),
    {
        self.tooltip_builder = Some(TooltipBuilder { build, hoverable: false });
    }

    /// Bind a tooltip builder whose tooltip stays visible while the
    /// pointer is over the tooltip itself. At most one tooltip builder
    /// may exist per configuration.
    pub fn hoverable_tooltip(&mut self, build: u64)
        requires
            old(self).tooltip_builder is None,
        ensures
            *final(self) == (Interactivity {
                tooltip_builder: Some(TooltipBuilder { build, hoverable: true }),
                ..*old(self)
            }),
    {
        self.tooltip_builder = Some(TooltipBuilder { build, hoverable: true });
    }

    /// Block the mouse from interacting with elements behind this one.
    pub fn occlude_mouse(&mut self)
        ensures
            *final(self) == (Interactivity { occlude_mouse: true, ..*old(self) }),
    {
        self.occlude_mouse = true;
    }

    /// Whether painting this element must create a hitbox: it does when
    /// anything about it needs mouse discrimination — occlusion, a
    /// cursor, grouping, scrolling, focus tracking, hover styles, any
    /// pointer or click listener, a drag or drop binding, or a tooltip.
    pub open spec fn spec_needs_hitbox(self) -> bool {
        self.occlude_mouse || self.mouse_cursor is Some || self.group is Some
            || self.tracked_scroll_handle is Some || self.scroll_offset_from_element_state
            || self.tracked_focus_handle is Some || self.hover_style is Some
            || self.group_hover_style is Some || self.mouse_up_listeners@.len() > 0
            || self.mouse_down_listeners@.len() > 0 || self.mouse_move_listeners@.len() > 0
            || self.click_listeners@.len() > 0 || self.scroll_wheel_listeners@.len() > 0
            || self.drag_listener is Some || self.drop_listeners@.len() > 0
            || self.tooltip_builder is Some
    }

    /// Decide whether a hitbox must be inserted for this element.
    pub fn should_insert_hitbox(&self) -> (r: bool)
        ensures
            r == self.spec_needs_hitbox(),
    {
        self.occlude_mouse || self.mouse_cursor.is_some() || self.group.is_some()
            || self.tracked_scroll_handle.is_some() || self.scroll_offset_from_element_state
            || self.tracked_focus_handle.is_some() || self.hover_style.is_some()
            || self.group_hover_style.is_some() || self.mouse_up_listeners.len() > 0
            || self.mouse_down_listeners.len() > 0 || self.mouse_move_listeners.len() > 0
            || self.click_listeners.len() > 0 || self.scroll_wheel_listeners.len() > 0
            || self.drag_listener.is_some() || self.drop_listeners.len() > 0
            || self.tooltip_builder.is_some()
    }
}

/// All fields equal except the mouse down listener table.
pub open spec fn unchanged_except_mouse_down(a: &Interactivity, b: &Interactivity) -> bool {
    *b == Interactivity { mouse_down_listeners: b.mouse_down_listeners, ..*a }
}

/// All fields equal except the mouse up listener table.
pub open spec fn unchanged_except_mouse_up(a: &Interactivity, b: &Interactivity) -> bool {
    *b == Interactivity { mouse_up_listeners: b.mouse_up_listeners, ..*a }
}

/// All fields equal except the mouse move listener table.
pub open spec fn unchanged_except_mouse_move(a: &Interactivity, b: &Interactivity) -> bool {
    *b == Interactivity { mouse_move_listeners: b.mouse_move_listeners, ..*a }
}

/// All fields equal except the scroll wheel listener table.
pub open spec fn unchanged_except_scroll_wheel(a: &Interactivity, b: &Interactivity) -> bool {
    *b == Interactivity { scroll_wheel_listeners: b.scroll_wheel_listeners, ..*a }
}

/// All fields equal except the action listener table.
pub open spec fn unchanged_except_action(a: &Interactivity, b: &Interactivity) -> bool {
    *b == Interactivity { action_listeners: b.action_listeners, ..*a }
}

/// All fields equal except the key down listener table.
pub open spec fn unchanged_except_key_down(a: &Interactivity, b: &Interactivity) -> bool {
    *b == Interactivity { key_down_listeners: b.key_down_listeners, ..*a }
}

/// All fields equal except the key up listener table.
pub open spec fn unchanged_except_key_up(a: &Interactivity, b: &Interactivity) -> bool {
    *b == Interactivity { key_up_listeners: b.key_up_listeners, ..*a }
}

/// All fields equal except the modifiers-changed listener table.
pub open spec fn unchanged_except_modifiers_changed(a: &Interactivity, b: &Interactivity) -> bool {
    *b == Interactivity { modifiers_changed_listeners: b.modifiers_changed_listeners, ..*a }
}

/// All fields equal except the drop listener table.
pub open spec fn unchanged_except_drop(a: &Interactivity, b: &Interactivity) -> bool {
    *b == Interactivity { drop_listeners: b.drop_listeners, ..*a }
}

/// All fields equal except the click listener table.
pub open spec fn unchanged_except_click(a: &Interactivity, b: &Interactivity) -> bool {
    *b == Interactivity { click_listeners: b.click_listeners, ..*a }
}

} // verus!
