//! Replies of the view's text-input client.
//!
//! The view advertises itself as a text-input client so that AppKit and the
//! host treat it as a text-entry target, but it keeps no text, selection or
//! composition of its own: editing reaches the application through ordinary
//! key events. Every query therefore answers with the empty state: no marked
//! text, an empty selection at the start, no substring and no character index.
use vstd::prelude::*;

verus! {

/// The location that stands for "no such position" (Foundation's
/// `NSNotFound`, the largest `NSInteger`).
pub open spec fn spec_not_found() -> usize {
    isize::MAX as usize
}

/// Returns the "no such position" location, the largest signed machine
/// integer taken as an unsigned one.
pub fn not_found() -> (location: usize)
    ensures
        location == spec_not_found(),
{
    isize::MAX as usize
}

/// A range of characters in the text that the client exposes: `length`
/// characters starting at `location`.
#[derive(Clone, Copy, Debug, PartialEq, Eq, Structural)]
pub struct TextRange {
    pub location: usize,
    pub length: usize,
}

impl TextRange {
    /// The range reported where there is no text to point at: location
    /// "not found", length zero.
    pub open spec fn spec_not_found_range() -> TextRange {
        TextRange { location: spec_not_found(), length: 0 }
    }

    /// Whether the range points at no text at all.
    pub open spec fn is_not_found(self) -> bool {
        self.location == spec_not_found()
    }

    pub fn new(location: usize, length: usize) -> (range: TextRange)
        ensures
            range.location == location,
            range.length == length,
    {
        TextRange { location, length }
    }

    /// The range that points at no text.
    pub fn not_found() -> (range: TextRange)
        ensures
            range == TextRange::spec_not_found_range(),
    {
        TextRange { location: not_found(), length: 0 }
    }

    /// Tells whether the range points at no text.
    pub fn is_not_found_range(&self) -> (b: bool)
        ensures
            b == self.is_not_found(),
            b <==> self.location == isize::MAX as usize,
    {
        self.location == not_found()
    }
}

/// The selection the client reports: empty, at the start of the text.
pub open spec fn spec_selected_range() -> TextRange {
    TextRange { location: 0, length: 0 }
}

/// The marked (composing) text the client reports: none.
pub open spec fn spec_marked_range() -> TextRange {
    TextRange::spec_not_found_range()
}

/// Whether the client reports marked text: never.
pub open spec fn spec_has_marked_text() -> bool {
    false
}

/// Returns the current selection: an empty range at location zero.
pub fn selected_range() -> (range: TextRange)
    ensures
        range == spec_selected_range(),
{
    TextRange::new(0, 0)
}

/// Returns the range of the marked text: the not-found range, as there is
/// none.
pub fn marked_range() -> (range: TextRange)
    ensures
        range == spec_marked_range(),
{
    TextRange::not_found()
}

/// Tells whether there is marked text: there never is.
pub fn has_marked_text() -> (b: bool)
    ensures
        b == spec_has_marked_text(),
{
    false
}

/// The "actual range" that goes with an answer about a proposed range, for a
/// caller that asked for one (`requested`): the not-found range, since no
/// proposed range maps onto text here. A caller that did not ask gets `None`.
pub fn actual_range(requested: bool) -> (range: Option<TextRange>)
    ensures
        requested ==> range == Some(TextRange::spec_not_found_range()),
        !requested ==> range is None,
{
    if requested {
        Some(TextRange::not_found())
    } else {
        None
    }
}

/// Answers a request for the text in `range`: there is no text to give, so
/// the answer is `None` whatever the range.
pub fn attributed_substring_for_proposed_range(range: TextRange) -> (substring: Option<String>)
    ensures
        substring is None,
{
    None
}

/// Answers which character lies under a point of the view: none.
pub fn character_index_for_point() -> (index: usize)
    ensures
        index == spec_not_found(),
{
    not_found()
}

/// The text attributes the client supports in marked text: none.
pub fn valid_attributes_for_marked_text() -> (attributes: Vec<String>)
    ensures
        attributes@.len() == 0,
{
    Vec::new()
}

/// A range points at no text exactly when its location is the largest signed
/// machine integer (`NSNotFound`), whatever its length.
pub proof fn lemma_not_found_is_location(r: TextRange)
    ensures
        r.is_not_found() <==> r.location == isize::MAX as usize,
        r.location < isize::MAX ==> !r.is_not_found(),
{
}

/// The client's answers agree with each other: it reports marked text
/// exactly when the marked range points at text, and a marked range that
/// points at no text is empty.
pub proof fn lemma_marked_text_agrees()
    ensures
        spec_has_marked_text() <==> !spec_marked_range().is_not_found(),
        spec_marked_range().is_not_found() ==> spec_marked_range().length == 0,
{
}

/// The reported selection lies inside the (empty) text and is an insertion
/// point, not a range of characters.
pub proof fn lemma_selection_is_insertion_point()
    ensures
        spec_selected_range().location == 0,
        spec_selected_range().length == 0,
        !spec_selected_range().is_not_found(),
{
}

} // verus!
