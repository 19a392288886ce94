//! Values that requests take as parameters.

use vstd::prelude::*;

verus! {

/// The order in which the card browser lists what it found.
#[derive(Debug, Clone, Copy, PartialEq, Eq)]
pub enum SortOrder {
    Ascending,
    Descending,
}

/// A column of the card browser.
#[derive(Debug, Clone, Copy, PartialEq, Eq)]
pub enum ColumnIdentifier {
    Custom,
    Answer,
    CardMod,
    Cards,
    Deck,
    Due,
    Ease,
    Lapses,
    Interval,
    NoteCreation,
    NoteMod,
    Notetype,
    OriginalPosition,
    Question,
    Reps,
    SortField,
    Tags,
    Stability,
    Difficulty,
    Retrievability,
}

impl Default for ColumnIdentifier {
    fn default() -> (r: ColumnIdentifier)
        ensures
            r == ColumnIdentifier::Custom,
    {
        ColumnIdentifier::Custom
    }
}

/// How the card browser is to sort.
#[derive(Debug, Clone, Copy, PartialEq, Eq)]
pub struct CardsReordering {
    pub order: SortOrder,
    pub column_id: ColumnIdentifier,
}

/// Where duplicates of a new note are looked for.
#[derive(Debug, Clone, Copy, PartialEq, Eq)]
pub enum DuplicateScope {
    Deck,
    Collection,
}

/// Where the content of a media file comes from.
#[derive(Debug, PartialEq, Eq)]
pub enum MediaSource {
    /// A path on the machine on which the collection lives.
    Path(String),
    /// An address from which the file is fetched.
    Url(String),
    /// The content itself, in base64.
    Base64(String),
}

/// What a [`MediaSource`] is, with texts in place of strings.
pub enum MediaSourceView {
    Path(Seq<char>),
    Url(Seq<char>),
    Base64(Seq<char>),
}

impl View for MediaSource {
    type V = MediaSourceView;

    open spec fn view(&self) -> MediaSourceView {
        match self {
            MediaSource::Path(s) => MediaSourceView::Path(s@),
            MediaSource::Url(s) => MediaSourceView::Url(s@),
            MediaSource::Base64(s) => MediaSourceView::Base64(s@),
        }
    }
}

impl Clone for MediaSource {
    fn clone(&self) -> (r: MediaSource)
        ensures
            r@ == self@,
    {
        match self {
            MediaSource::Path(s) => MediaSource::Path(s.clone()),
            MediaSource::Url(s) => MediaSource::Url(s.clone()),
            MediaSource::Base64(s) => MediaSource::Base64(s.clone()),
        }
    }
}

} // verus!
