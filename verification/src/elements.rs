//! The builder-style element API: traits for elements that expose an
//! interaction configuration, and the wrappers that mark an element
//! focusable or stateful.

use crate::geometry::Bounds;
use crate::interaction::Interactivity;
use crate::pipeline::Div;
use vstd::prelude::*;

verus! {

/// An element that exposes the standard interaction configuration.
pub trait InteractiveElement: Sized {
    /// Retrieve the interactivity state associated with this element.
    fn interactivity(&mut self) -> &mut Interactivity;
}

/// An element with a stable identity, able to use the stateful subset
/// of the interactivity: clicks, drags, hover tracking, tooltips and
/// scrolling.
pub trait StatefulInteractiveElement: InteractiveElement {

}

/// An element that can track a focus handle and style itself by focus
/// state.
pub trait FocusableElement: InteractiveElement {

}

/// Construct an empty container element.
pub fn div() -> (r: Div)
    ensures
        r.wf(),
        r.children@.len() == 0,
        r.hitbox is None,
{
    Div::new()
}

impl InteractiveElement for Div {
    fn interactivity(&mut self) -> &mut Interactivity {
        &mut self.interactivity
    }
}

impl Div {
    /// Assign this element to a named group of elements that can be
    /// styled together.
    pub fn group(self, name: String) -> (r: Div)
        ensures
            r == (Div {
                interactivity: Interactivity { group: Some(name), ..self.interactivity },
                ..self
            }),
    {
        let mut this = self;
        this.interactivity.group = Some(name);
        this
    }

    /// Assign this element a stable identity, enabling the stateful
    /// interactivity.
    pub fn id(self, id: u64) -> (r: Stateful<Div>)
        ensures
            r.element == (Div {
                interactivity: Interactivity { element_id: Some(id), ..self.interactivity },
                ..self
            }),
    {
        let mut this = self;
        this.interactivity.element_id = Some(id);
        Stateful { element: this }
    }

    /// Track the focus state of the given focus handle on this element.
    pub fn track_focus(self, focus_handle: u64) -> (r: Focusable<Div>)
        ensures
            r.element == (Div {
                interactivity: Interactivity {
                    focusable: true,
                    tracked_focus_handle: Some(focus_handle),
                    ..self.interactivity
                },
                ..self
            }),
    {
        let mut this = self;
        this.interactivity.focusable = true;
        this.interactivity.tracked_focus_handle = Some(focus_handle);
        Focusable { element: this }
    }

    /// Block the mouse from interacting with this element or anything
    /// behind it.
    pub fn occlude(self) -> (r: Div)
        ensures
            r == (Div {
                interactivity: Interactivity { occlude_mouse: true, ..self.interactivity },
                ..self
            }),
    {
        let mut this = self;
        this.interactivity.occlude_mouse = true;
        this
    }

    /// Let the element scroll its overflowing content on both axes.
    pub fn overflow_scroll(self) -> (r: Stateful<Div>)
        ensures
            r.element == (Div {
                interactivity: Interactivity {
                    base_overflow: crate::interaction::OverflowAxes {
                        x: crate::interaction::Overflow::Scroll,
                        y: crate::interaction::Overflow::Scroll,
                    },
                    ..self.interactivity
                },
                ..self
            }),
    {
        let mut this = self;
        this.interactivity.base_overflow = crate::interaction::OverflowAxes {
            x: crate::interaction::Overflow::Scroll,
            y: crate::interaction::Overflow::Scroll,
        };
        Stateful { element: this }
    }

    /// Let the element scroll its overflowing content horizontally.
    pub fn overflow_x_scroll(self) -> (r: Stateful<Div>)
        ensures
            r.element == (Div {
                interactivity: Interactivity {
                    base_overflow: crate::interaction::OverflowAxes {
                        x: crate::interaction::Overflow::Scroll,
                        ..self.interactivity.base_overflow
                    },
                    ..self.interactivity
                },
                ..self
            }),
    {
        let mut this = self;
        this.interactivity.base_overflow.x = crate::interaction::Overflow::Scroll;
        Stateful { element: this }
    }

    /// Let the element scroll its overflowing content vertically.
    pub fn overflow_y_scroll(self) -> (r: Stateful<Div>)
        ensures
            r.element == (Div {
                interactivity: Interactivity {
                    base_overflow: crate::interaction::OverflowAxes {
                        y: crate::interaction::Overflow::Scroll,
                        ..self.interactivity.base_overflow
                    },
                    ..self.interactivity
                },
                ..self
            }),
    {
        let mut this = self;
        this.interactivity.base_overflow.y = crate::interaction::Overflow::Scroll;
        Stateful { element: this }
    }

    /// Bind the element's scroll state to a caller-held handle.
    pub fn track_scroll(self, scroll_handle: u64) -> (r: Stateful<Div>)
        ensures
            r.element == (Div {
                interactivity: Interactivity {
                    tracked_scroll_handle: Some(scroll_handle),
                    ..self.interactivity
                },
                ..self
            }),
    {
        let mut this = self;
        this.interactivity.tracked_scroll_handle = Some(scroll_handle);
        Stateful { element: this }
    }

    /// Append a child element.
    pub fn child(self, child: Div) -> (r: Div)
        ensures
            r == (Div { children: r.children, ..self }),
            r.children@ == self.children@.push(child),
    {
        let mut this = self;
        this.children.push(child);
        this
    }

    /// Record the bounds the layout engine assigned to this element.
    pub fn with_bounds(self, bounds: Bounds) -> (r: Div)
        ensures
            r == (Div { bounds, ..self }),
    {
        let mut this = self;
        this.bounds = bounds;
        this
    }
}

/// A wrapper around an element that can be focused.
pub struct Focusable<E> {
    /// The element that is focusable.
    pub element: E,
}

impl<E: InteractiveElement> InteractiveElement for Focusable<E> {
    fn interactivity(&mut self) -> &mut Interactivity {
        self.element.interactivity()
    }
}

impl<E: InteractiveElement> FocusableElement for Focusable<E> {

}

impl<E: StatefulInteractiveElement> StatefulInteractiveElement for Focusable<E> {

}

/// A wrapper around an element that can store state, produced after
/// assigning a stable identity.
pub struct Stateful<E> {
    /// The wrapped element.
    pub element: E,
}

impl<E: InteractiveElement> InteractiveElement for Stateful<E> {
    fn interactivity(&mut self) -> &mut Interactivity {
        self.element.interactivity()
    }
}

impl<E: InteractiveElement> StatefulInteractiveElement for Stateful<E> {

}

impl<E: FocusableElement> FocusableElement for Stateful<E> {

}

} // verus!
