//! Requests as a sender takes them, and what is sent to add the card of a
//! model that is known by identifier and name.

use crate::client::request::{Params, ReplyKind};
use crate::parameter_types::{DuplicateScope, MediaSource, MediaSourceView};
use vstd::prelude::*;

verus! {

/// A request: the name of the action, the version of the interface, what the
/// action takes, and the shape in which the result is expected.
#[derive(Debug, Clone, PartialEq, Eq)]
pub struct AnkiConnectRequest {
    pub action: &'static str,
    pub version: u8,
    pub params: Option<Params>,
    pub expect: ReplyKind,
}

/// The view of an optional string slice.
pub open spec fn optional_str(s: Option<&str>) -> Option<Seq<char>> {
    match s {
        Some(s) => Some(s@),
        None => None,
    }
}

/// The path of a source, where it is one.
pub open spec fn path_of(source: MediaSourceView) -> Option<Seq<char>> {
    match source {
        MediaSourceView::Path(p) => Some(p),
        _ => None,
    }
}

/// The address of a source, where it is one.
pub open spec fn url_of(source: MediaSourceView) -> Option<Seq<char>> {
    match source {
        MediaSourceView::Url(u) => Some(u),
        _ => None,
    }
}

/// The base64 content of a source, where it is one.
pub open spec fn data_of(source: MediaSourceView) -> Option<Seq<char>> {
    match source {
        MediaSourceView::Base64(d) => Some(d),
        _ => None,
    }
}

/// The source of a media file as it is sent: exactly one of path, address
/// and data is given.
#[derive(Debug, Clone, Copy, PartialEq, Eq)]
pub struct MediaSourceDTO<'a> {
    path: Option<&'a str>,
    url: Option<&'a str>,
    data: Option<&'a str>,
}

impl<'a> MediaSourceDTO<'a> {
    /// The path that is sent.
    pub closed spec fn spec_path(&self) -> Option<Seq<char>> {
        optional_str(self.path)
    }

    /// The address that is sent.
    pub closed spec fn spec_url(&self) -> Option<Seq<char>> {
        optional_str(self.url)
    }

    /// The base64 content that is sent.
    pub closed spec fn spec_data(&self) -> Option<Seq<char>> {
        optional_str(self.data)
    }

    /// What is sent for `media_source`: the one part that the source holds.
    pub fn from_source(media_source: &'a MediaSource) -> (r: MediaSourceDTO<'a>)
        ensures
            r.spec_path() == path_of(media_source@),
            r.spec_url() == url_of(media_source@),
            r.spec_data() == data_of(media_source@),
    {
        match media_source {
            MediaSource::Path(path) => MediaSourceDTO {
                path: Some(path.as_str()),
                url: None,
                data: None,
            },
            MediaSource::Url(url) => MediaSourceDTO {
                path: None,
                url: Some(url.as_str()),
                data: None,
            },
            MediaSource::Base64(data) => MediaSourceDTO {
                path: None,
                url: None,
                data: Some(data.as_str()),
            },
        }
    }

    /// The path, where one is sent.
    pub fn path(&self) -> (r: Option<&'a str>)
        ensures
            optional_str(r) == self.spec_path(),
    {
        self.path
    }

    /// The address, where one is sent.
    pub fn url(&self) -> (r: Option<&'a str>)
        ensures
            optional_str(r) == self.spec_url(),
    {
        self.url
    }

    /// The base64 content, where it is sent.
    pub fn data(&self) -> (r: Option<&'a str>)
        ensures
            optional_str(r) == self.spec_data(),
    {
        self.data
    }
}

/// A media file of a new note as it is sent.
#[derive(Debug, Clone, PartialEq, Eq)]
pub struct Media<'a> {
    pub media_source: MediaSourceDTO<'a>,
    pub filename: &'a str,
    pub skip_hash: Option<&'a str>,
    /// The fields in which the file is shown.
    pub fields: Vec<&'a str>,
}

/// How far the search for duplicates reaches.
#[derive(Debug, Clone, PartialEq, Eq)]
pub struct DuplicateScopeOptions<'a> {
    pub deck_name: Option<&'a str>,
    pub check_children: bool,
    pub check_all_models: bool,
}

/// How a new note is added.
#[derive(Debug, Clone, PartialEq, Eq)]
pub struct AddNoteOptions<'a> {
    pub allow_duplicate: bool,
    pub duplicate_scope: Option<DuplicateScope>,
    pub duplicate_scope_options: Option<DuplicateScopeOptions<'a>>,
}

/// A new note as it is sent.
#[derive(Debug, Clone, PartialEq, Eq)]
pub struct Note<'a> {
    pub deck_name: &'a str,
    pub model_name: &'a str,
    /// Field names with their contents, in the order of the card.
    pub fields: Vec<(&'a str, &'a str)>,
    pub options: AddNoteOptions<'a>,
    pub tags: Vec<&'a str>,
    pub audio: Vec<Media<'a>>,
    pub video: Vec<Media<'a>>,
    pub picture: Vec<Media<'a>>,
}

} // verus!
