//! Input events and the dispatch phase model.
//!
//! Every input event travels through the element tree twice: a capture pass
//! from the root toward the target, then a bubble pass back toward the root.
//! Handlers outside this crate are identified by plain tokens; the crate
//! decides which of them fire and in what order.

use crate::geometry::Point;
use vstd::prelude::*;

verus! {

/// Which traversal pass a listener runs in.
#[derive(Clone, Copy, Debug, PartialEq, Eq, Structural)]
pub enum DispatchPhase {
    /// Root-to-target pass, run before any bubble listener.
    Capture,
    /// Target-to-root pass, run after the capture pass completes.
    Bubble,
}

/// A mouse button.
#[derive(Clone, Copy, Debug, PartialEq, Eq, Structural)]
pub enum MouseButton {
    /// The primary button.
    Left,
    /// The secondary button.
    Right,
    /// The wheel button.
    Middle,
}

/// The state of the keyboard modifiers.
#[derive(Clone, Copy, Debug, PartialEq, Eq, Structural, Default)]
pub struct Modifiers {
    /// Control is held.
    pub control: bool,
    /// Alt / option is held.
    pub alt: bool,
    /// Shift is held.
    pub shift: bool,
    /// The platform command key is held.
    pub platform: bool,
    /// The function key is held.
    pub function: bool,
}

/// A mouse button was pressed.
#[derive(Clone, Copy, Debug, PartialEq, Eq, Structural)]
pub struct MouseDownEvent {
    /// The button that went down.
    pub button: MouseButton,
    /// Where the pointer was when the button went down.
    pub position: Point,
    /// Modifier state at the time of the press.
    pub modifiers: Modifiers,
    /// 1 for a single click, 2 for a double click, and so on.
    pub click_count: usize,
}

/// A mouse button was released.
#[derive(Clone, Copy, Debug, PartialEq, Eq, Structural)]
pub struct MouseUpEvent {
    /// The button that went up.
    pub button: MouseButton,
    /// Where the pointer was when the button went up.
    pub position: Point,
    /// Modifier state at the time of the release.
    pub modifiers: Modifiers,
    /// 1 for a single click, 2 for a double click, and so on.
    pub click_count: usize,
}

/// The pointer moved.
#[derive(Clone, Copy, Debug, PartialEq, Eq, Structural)]
pub struct MouseMoveEvent {
    /// The new pointer position.
    pub position: Point,
    /// The button held during the move, if any.
    pub pressed_button: Option<MouseButton>,
    /// Modifier state during the move.
    pub modifiers: Modifiers,
}

/// How far a scroll wheel event asks to scroll.
#[derive(Clone, Copy, Debug, PartialEq, Eq, Structural)]
pub enum ScrollDelta {
    /// An exact displacement in pixels.
    Pixels(Point),
    /// A displacement in text lines, converted with the line height.
    Lines(Point),
}

/// The scroll wheel turned.
#[derive(Clone, Copy, Debug, PartialEq, Eq, Structural)]
pub struct ScrollWheelEvent {
    /// Where the pointer was during the scroll.
    pub position: Point,
    /// The requested displacement.
    pub delta: ScrollDelta,
    /// Modifier state during the scroll.
    pub modifiers: Modifiers,
}

/// A key went down. The keystroke itself is a caller-owned token.
#[derive(Clone, Copy, Debug, PartialEq, Eq, Structural)]
pub struct KeyDownEvent {
    /// Token identifying the keystroke for the embedding application.
    pub keystroke: u64,
    /// Whether this event repeats a held key.
    pub is_held: bool,
}

/// A key went up.
#[derive(Clone, Copy, Debug, PartialEq, Eq, Structural)]
pub struct KeyUpEvent {
    /// Token identifying the keystroke for the embedding application.
    pub keystroke: u64,
}

/// The keyboard modifiers changed.
#[derive(Clone, Copy, Debug, PartialEq, Eq, Structural)]
pub struct ModifiersChangedEvent {
    /// The new modifier state.
    pub modifiers: Modifiers,
}

/// A completed click: the press that armed the element and the release
/// that landed on it.
#[derive(Clone, Copy, Debug, PartialEq, Eq, Structural)]
pub struct ClickEvent {
    /// The mouse press that started the click.
    pub down: MouseDownEvent,
    /// The mouse release that finished the click.
    pub up: MouseUpEvent,
}

impl ScrollDelta {
    /// The displacement in pixels: line deltas are scaled by the line
    /// height, pixel deltas pass through.
    pub open spec fn spec_pixel_delta(self, line_height: int) -> Point {
        match self {
            ScrollDelta::Pixels(p) => p,
            ScrollDelta::Lines(l) => Point {
                x: (l.x * line_height) as i64,
                y: (l.y * line_height) as i64,
            },
        }
    }

    /// Convert this delta to pixels using the given line height.
    pub fn pixel_delta(&self, line_height: i64) -> (r: Point)
        requires
            0 <= line_height <= 0x1000,
            (self matches ScrollDelta::Lines(l) ==> -0x10_0000 <= l.x <= 0x10_0000
                && -0x10_0000 <= l.y <= 0x10_0000),
        ensures
            r == self.spec_pixel_delta(line_height as int),
    {
        match self {
            ScrollDelta::Pixels(p) => *p,
            ScrollDelta::Lines(l) => {
                proof {
                    assert(-0x1000_0000_0000 <= l.x * line_height <= 0x1000_0000_0000)
                        by (nonlinear_arith)
                        requires
                            -0x10_0000 <= l.x <= 0x10_0000,
                            0 <= line_height <= 0x1000,
                    ;
                    assert(-0x1000_0000_0000 <= l.y * line_height <= 0x1000_0000_0000)
                        by (nonlinear_arith)
                        requires
                            -0x10_0000 <= l.y <= 0x10_0000,
                            0 <= line_height <= 0x1000,
                    ;
                }
                Point { x: l.x * line_height, y: l.y * line_height }
            },
        }
    }
}

} // verus!
