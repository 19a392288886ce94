//! Media that a note can carry.

use vstd::prelude::*;

verus! {

/// The kind of a media file.
#[derive(Debug, Clone, Copy, PartialEq, Eq)]
pub enum MediaType {
    Audio,
    Video,
    Image,
}

/// Where the content of a media file comes from. Exactly one of the three
/// is given.
#[derive(Debug, PartialEq, Eq)]
pub enum MediaSource {
    /// A path on the machine on which the collection lives.
    Path(String),
    /// An address from which the file is fetched.
    Url(String),
    /// The content itself, in base64.
    Base64(String),
}

/// What a [`MediaSource`] is, with texts in place of strings.
pub enum MediaSourceView {
    Path(Seq<char>),
    Url(Seq<char>),
    Base64(Seq<char>),
}

impl View for MediaSource {
    type V = MediaSourceView;

    open spec fn view(&self) -> MediaSourceView {
        match self {
            MediaSource::Path(s) => MediaSourceView::Path(s@),
            MediaSource::Url(s) => MediaSourceView::Url(s@),
            MediaSource::Base64(s) => MediaSourceView::Base64(s@),
        }
    }
}

impl Clone for MediaSource {
    fn clone(&self) -> (r: MediaSource)
        ensures
            r@ == self@,
    {
        match self {
            MediaSource::Path(s) => MediaSource::Path(s.clone()),
            MediaSource::Url(s) => MediaSource::Url(s.clone()),
            MediaSource::Base64(s) => MediaSource::Base64(s.clone()),
        }
    }
}

impl MediaSource {
    /// The path, where the source is one.
    pub fn path(&self) -> (r: Option<&String>)
        ensures
            match r {
                Some(p) => self@ == MediaSourceView::Path(p@),
                None => !(self@ is Path),
            },
    {
        match self {
            MediaSource::Path(path) => Some(path),
            _ => None,
        }
    }

    /// The address, where the source is one.
    pub fn url(&self) -> (r: Option<&String>)
        ensures
            match r {
                Some(u) => self@ == MediaSourceView::Url(u@),
                None => !(self@ is Url),
            },
    {
        match self {
            MediaSource::Url(url) => Some(url),
            _ => None,
        }
    }

    /// The base64 content, where the source is one.
    pub fn data(&self) -> (r: Option<&String>)
        ensures
            match r {
                Some(d) => self@ == MediaSourceView::Base64(d@),
                None => !(self@ is Base64),
            },
    {
        match self {
            MediaSource::Base64(data) => Some(data),
            _ => None,
        }
    }
}

/// A media file for a note: its source, the name under which it is stored
/// and its kind.
#[derive(Debug, PartialEq, Eq)]
pub struct Media {
    source: MediaSource,
    filename: String,
    media_type: MediaType,
}

/// What a [`Media`] is.
pub struct MediaView {
    pub source: MediaSourceView,
    pub filename: Seq<char>,
    pub media_type: MediaType,
}

impl View for Media {
    type V = MediaView;

    closed spec fn view(&self) -> MediaView {
        MediaView { source: self.source@, filename: self.filename@, media_type: self.media_type }
    }
}

impl Clone for Media {
    fn clone(&self) -> (r: Media)
        ensures
            r@ == self@,
    {
        Media {
            source: self.source.clone(),
            filename: self.filename.clone(),
            media_type: self.media_type,
        }
    }
}

impl Media {
    /// The media file with the given source, name and kind.
    pub fn new(source: MediaSource, filename: String, media_type: MediaType) -> (m: Media)
        ensures
            m@ == (MediaView { source: source@, filename: filename@, media_type }),
    {
        Media { source, filename, media_type }
    }

    /// A sound file.
    pub fn audio(source: MediaSource, filename: String) -> (m: Media)
        ensures
            m@ == (MediaView {
                source: source@,
                filename: filename@,
                media_type: MediaType::Audio,
            }),
    {
        Media::new(source, filename, MediaType::Audio)
    }

    /// A picture.
    pub fn image(source: MediaSource, filename: String) -> (m: Media)
        ensures
            m@ == (MediaView {
                source: source@,
                filename: filename@,
                media_type: MediaType::Image,
            }),
    {
        Media::new(source, filename, MediaType::Image)
    }

    /// A film.
    pub fn video(source: MediaSource, filename: String) -> (m: Media)
        ensures
            m@ == (MediaView {
                source: source@,
                filename: filename@,
                media_type: MediaType::Video,
            }),
    {
        Media::new(source, filename, MediaType::Video)
    }

    /// Where the content comes from.
    pub fn source(&self) -> (r: &MediaSource)
        ensures
            r@ == self@.source,
    {
        &self.source
    }

    /// The name under which the file is stored.
    pub fn filename(&self) -> (r: &str)
        ensures
            r@ == self@.filename,
    {
        self.filename.as_str()
    }

    /// The kind of the file.
    pub fn media_type(&self) -> (r: MediaType)
        ensures
            r == self@.media_type,
    {
        self.media_type
    }
}

/// A media file and the name of the field in which it is shown.
#[derive(Debug, PartialEq, Eq)]
pub struct FieldMedia {
    pub(crate) media: Media,
    pub(crate) field: String,
}

/// What a [`FieldMedia`] is.
pub struct FieldMediaView {
    pub media: MediaView,
    pub field: Seq<char>,
}

impl View for FieldMedia {
    type V = FieldMediaView;

    closed spec fn view(&self) -> FieldMediaView {
        FieldMediaView { media: self.media@, field: self.field@ }
    }
}

impl Clone for FieldMedia {
    fn clone(&self) -> (r: FieldMedia)
        ensures
            r@ == self@,
    {
        FieldMedia { media: self.media.clone(), field: self.field.clone() }
    }
}

impl FieldMedia {
    /// The media file `media`, shown in the field named `field`.
    pub fn new(media: Media, field: String) -> (r: FieldMedia)
        ensures
            r@ == (FieldMediaView { media: media@, field: field@ }),
    {
        FieldMedia { media, field }
    }

    /// The media file.
    pub fn media(&self) -> (r: &Media)
        ensures
            r@ == self@.media,
    {
        &self.media
    }

    /// The name of the field.
    pub fn field(&self) -> (r: &str)
        ensures
            r@ == self@.field,
    {
        self.field.as_str()
    }
}

/// The views of a sequence of media with their fields.
pub open spec fn media_views(v: Seq<FieldMedia>) -> Seq<FieldMediaView> {
    v.map_values(|m: FieldMedia| m@)
}

/// The field names of a sequence of media with their fields.
pub open spec fn media_fields(v: Seq<FieldMediaView>) -> Seq<Seq<char>> {
    v.map_values(|m: FieldMediaView| m.field)
}

} // verus!
