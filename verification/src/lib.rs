//! Retained-interaction core of a UI toolkit's container element.
//!
//! A caller declares a tree of boxes each frame; this crate turns that
//! declaration into hit-tested, event-bound, stateful screen regions:
//! hover and occlusion testing, capture/bubble event dispatch,
//! click-versus-drag disambiguation, scroll-offset clamping, named hitbox
//! groups, and tooltip scheduling. Geometry is computed by an external
//! layout engine and handed in as plain values; rendering and I/O stay
//! outside.
//!
//! The modules, roughly in dependency order: [`geometry`] and
//! [`events`] define the plain values everything else speaks in;
//! [`hitbox`] does hit testing with occlusion; [`store`],
//! [`element_state`] and [`scroll`] hold the state that outlives a
//! frame; [`group`] keeps the named hitbox group stacks; [`context`]
//! holds the single active-drag slot and focus; [`interaction`] is the
//! per-element declarative configuration; [`style`] computes which
//! style refinements currently apply; [`gesture`] and [`tooltip`] are
//! the stateful reactions; [`dispatch`] orders event delivery;
//! [`pipeline`] composes it all over a tree of [`pipeline::Div`]
//! containers; [`laws`] states and proves the properties that span
//! several of them.

pub mod context;
pub mod laws;
pub mod pipeline;
pub mod scroll;
pub mod store;
pub mod style;
pub mod tooltip;
pub mod dispatch;
pub mod element_state;
pub mod elements;
pub mod events;
pub mod frame;
pub mod geometry;
pub mod gesture;
pub mod group;
pub mod hitbox;
pub mod input;
pub mod interaction;
pub mod item;

pub use geometry::{Bounds, Point, Size};
