//! Text input plumbing: a model trait for anything that edits text, and
//! the element-scoped input handler that forwards platform input to it
//! with the element's bounds attached.

use crate::geometry::Bounds;
use vstd::prelude::*;

verus! {

/// A selected range in UTF-16 code units, possibly reversed.
#[derive(Clone, Copy, Debug, PartialEq, Eq, Structural)]
pub struct UTF16Selection {
    /// Start of the selection.
    pub start: usize,
    /// End of the selection.
    pub end: usize,
    /// Whether the caret sits at the start rather than the end.
    pub reversed: bool,
}

/// Implement this trait to let a model handle textual input when
/// building an editor or a field. Ranges are in UTF-16 code units.
pub trait InputHandlerModel: Sized {
    /// The text in the given range, if the range is meaningful to the
    /// model.
    fn text_for_range(&mut self, start: usize, end: usize) -> Option<String>;

    /// The currently selected range, if any.
    fn selected_text_range(&mut self, ignore_disabled_input: bool) -> Option<UTF16Selection>;

    /// The marked (pre-edit) range, if any.
    fn marked_text_range(&mut self) -> Option<(usize, usize)>;

    /// Remove the marked range, keeping its text.
    fn unmark_text(&mut self);

    /// Replace the given range — or the selection when absent — with
    /// the text.
    fn replace_text_in_range(&mut self, range: Option<(usize, usize)>, text: &String);

    /// Replace the given range and mark the inserted text as pre-edit.
    fn replace_and_mark_text_in_range(
        &mut self,
        range: Option<(usize, usize)>,
        new_text: &String,
        new_selected_range: Option<(usize, usize)>,
    );

    /// The screen bounds of the given range, measured within the given
    /// element bounds.
    fn bounds_for_range(&mut self, start: usize, end: usize, element_bounds: Bounds) -> Option<
        Bounds,
    >;
}

/// The canonical input handler for one element: forwards every request
/// to the model and supplies the element's bounds where geometry is
/// asked for.
pub struct ElementInputHandler<T> {
    /// The model that edits the text.
    pub model: T,
    /// The element's bounds, attached to geometry queries.
    pub element_bounds: Bounds,
}

impl<T> ElementInputHandler<T> {
    /// Build an input handler for an element painted at the given
    /// bounds over the given model.
    pub fn new(element_bounds: Bounds, model: T) -> (r: ElementInputHandler<T>)
        ensures
            r.element_bounds == element_bounds,
            r.model == model,
    {
        ElementInputHandler { model, element_bounds }
    }
}

impl<T: InputHandlerModel> ElementInputHandler<T> {
    /// The text in the given range.
    pub fn text_for_range(&mut self, start: usize, end: usize) -> Option<String> {
        self.model.text_for_range(start, end)
    }

    /// The currently selected range.
    pub fn selected_text_range(&mut self, ignore_disabled_input: bool) -> Option<UTF16Selection> {
        self.model.selected_text_range(ignore_disabled_input)
    }

    /// The marked range.
    pub fn marked_text_range(&mut self) -> Option<(usize, usize)> {
        self.model.marked_text_range()
    }

    /// Remove the marked range, keeping its text.
    pub fn unmark_text(&mut self) {
        self.model.unmark_text()
    }

    /// Replace the given range with the text.
    pub fn replace_text_in_range(&mut self, range: Option<(usize, usize)>, text: &String) {
        self.model.replace_text_in_range(range, text)
    }

    /// Replace the given range and mark the inserted text.
    pub fn replace_and_mark_text_in_range(
        &mut self,
        range: Option<(usize, usize)>,
        new_text: &String,
        new_selected_range: Option<(usize, usize)>,
    ) {
        self.model.replace_and_mark_text_in_range(range, new_text, new_selected_range)
    }

    /// The screen bounds of the given range within this element.
    pub fn bounds_for_range(&mut self, start: usize, end: usize) -> Option<Bounds> {
        let bounds = self.element_bounds;
        self.model.bounds_for_range(start, end, bounds)
    }
}

} // verus!
