//! Notes, put together step by step and checked when they are finished.

use crate::collections::{keys, with_tag, with_value, FieldValues, TagSet};
use crate::error::{NoteError, NoteErrorView};
use crate::models::media::{
    media_views, FieldMedia, FieldMediaView, Media, MediaSource, MediaType, MediaView,
};
use crate::models::model::{field_names, FieldRef, Model, ModelView};
use crate::models::note::{all_known, is_first_unknown, referenced_names, Note, NoteView};
use vstd::prelude::*;

verus! {

/// What stands for one character in text that is shown as HTML: the three
/// characters with a meaning in markup are written as entities.
pub open spec fn html_char(c: char) -> Seq<char> {
    if c == '&' {
        "&amp;"@
    } else if c == '<' {
        "&lt;"@
    } else if c == '>' {
        "&gt;"@
    } else {
        seq![c]
    }
}

/// `s` with every `&`, `<` and `>` written as an entity.
pub open spec fn html_text(s: Seq<char>) -> Seq<char>
    decreases s.len(),
{
    if s.len() == 0 {
        s
    } else {
        html_text(s.drop_last()) + html_char(s.last())
    }
}

/// Trusted: `html_escape::encode_text`. The contract claims what the crate
/// documents of it: `&` becomes `&amp;`, `<` becomes `&lt;`, `>` becomes
/// `&gt;`, and every other character stays as it is.
#[verifier::external_body]
pub(crate) fn encode_text(content: &str) -> (r: String)
    ensures
        r@ == html_text(content@),
{
    html_escape::encode_text(content).into_owned()
}

/// What a [`NoteBuilder`] holds.
pub struct NoteBuilderView {
    pub model: ModelView,
    /// Field names with their contents, in the order in which the names came.
    pub field_values: Seq<(Seq<char>, Seq<char>)>,
    /// The tags, in the order in which they came; none occurs twice.
    pub tags: Seq<Seq<char>>,
    pub media: Seq<FieldMediaView>,
}

impl NoteBuilderView {
    /// The builder with `content` under the field name `name`.
    pub open spec fn with_content(self, name: Seq<char>, content: Seq<char>) -> NoteBuilderView {
        NoteBuilderView { field_values: with_value(self.field_values, name, content), ..self }
    }

    /// The builder with the tag `tag`.
    pub open spec fn with_tag(self, tag: Seq<char>) -> NoteBuilderView {
        NoteBuilderView { tags: with_tag(self.tags, tag), ..self }
    }

    /// The builder with one more media file, shown in the field `name`.
    pub open spec fn with_media(self, name: Seq<char>, media: MediaView) -> NoteBuilderView {
        NoteBuilderView {
            media: self.media.push(FieldMediaView { media, field: name }),
            ..self
        }
    }

    /// The field names that the builder refers to.
    pub open spec fn names(self) -> Seq<Seq<char>> {
        referenced_names(self.field_values, self.media)
    }

    /// Whether a note can be built: every field name that the builder
    /// refers to belongs to the model.
    pub open spec fn is_complete(self) -> bool {
        all_known(self.model, self.names())
    }

    /// The note that is built.
    pub open spec fn note(self) -> NoteView {
        NoteView {
            id: None,
            model: self.model,
            field_values: self.field_values,
            tags: self.tags,
            media: self.media,
        }
    }
}

/// Collects the contents, tags and media of a note of one model.
pub struct NoteBuilder {
    model: Model,
    field_values: FieldValues,
    tags: TagSet,
    media: Vec<FieldMedia>,
}

impl View for NoteBuilder {
    type V = NoteBuilderView;

    closed spec fn view(&self) -> NoteBuilderView {
        NoteBuilderView {
            model: self.model@,
            field_values: self.field_values@,
            tags: self.tags@,
            media: media_views(self.media@),
        }
    }
}

impl NoteBuilder {
    /// The model is valid, and no field name and no tag occurs twice.
    pub open spec fn wf(&self) -> bool {
        &&& self@.model.fields.len() > 0
        &&& field_names(self@.model.fields).no_duplicates()
        &&& keys(self@.field_values).no_duplicates()
        &&& self@.tags.no_duplicates()
    }

    /// The builder for a note of `model`, with no content, tag or media.
    pub fn new(model: Model) -> (r: NoteBuilder)
        requires
            model.wf(),
        ensures
            r.wf(),
            r@ == (NoteBuilderView {
                model: model@,
                field_values: Seq::empty(),
                tags: Seq::empty(),
                media: Seq::empty(),
            }),
    {
        let r = NoteBuilder {
            model,
            field_values: FieldValues::new(),
            tags: TagSet::new(),
            media: Vec::new(),
        };
        assert(r@.media =~= Seq::<FieldMediaView>::empty());
        r
    }

    /// Puts `content` into the field, with `&`, `<` and `>` written as
    /// entities so that they show as text. What was in the field before is
    /// replaced.
    pub fn with_field(self, field_ref: FieldRef<'_>, content: &str) -> (r: NoteBuilder)
        requires
            self.wf(),
        ensures
            r.wf(),
            r@ == self@.with_content(field_ref@.field.name, html_text(content@)),
    {
        let escaped = encode_text(content);
        let mut b = self;
        b.field_values.insert(String::from_str(field_ref.name()), escaped);
        b
    }

    /// Puts `content` into the field as it is. What was in the field before
    /// is replaced.
    pub fn with_field_raw(self, field_ref: FieldRef<'_>, content: &str) -> (r: NoteBuilder)
        requires
            self.wf(),
        ensures
            r.wf(),
            r@ == self@.with_content(field_ref@.field.name, content@),
    {
        let mut b = self;
        b.field_values.insert(String::from_str(field_ref.name()), String::from_str(content));
        b
    }

    /// Adds a tag. A tag that is there already is not added again.
    pub fn with_tag(self, tag: &str) -> (r: NoteBuilder)
        requires
            self.wf(),
        ensures
            r.wf(),
            r@ == self@.with_tag(tag@),
    {
        let mut b = self;
        b.tags.insert(String::from_str(tag));
        b
    }

    /// Attaches a sound file to the field.
    pub fn with_audio(self, field_ref: FieldRef<'_>, source: MediaSource, filename: &str) -> (r:
        NoteBuilder)
        requires
            self.wf(),
        ensures
            r.wf(),
            r@ == self@.with_media(
                field_ref@.field.name,
                MediaView { source: source@, filename: filename@, media_type: MediaType::Audio },
            ),
    {
        self.with_media(field_ref, Media::audio(source, String::from_str(filename)))
    }

    /// Attaches a picture to the field.
    pub fn with_image(self, field_ref: FieldRef<'_>, source: MediaSource, filename: &str) -> (r:
        NoteBuilder)
        requires
            self.wf(),
        ensures
            r.wf(),
            r@ == self@.with_media(
                field_ref@.field.name,
                MediaView { source: source@, filename: filename@, media_type: MediaType::Image },
            ),
    {
        self.with_media(field_ref, Media::image(source, String::from_str(filename)))
    }

    /// Attaches a film to the field.
    pub fn with_video(self, field_ref: FieldRef<'_>, source: MediaSource, filename: &str) -> (r:
        NoteBuilder)
        requires
            self.wf(),
        ensures
            r.wf(),
            r@ == self@.with_media(
                field_ref@.field.name,
                MediaView { source: source@, filename: filename@, media_type: MediaType::Video },
            ),
    {
        self.with_media(field_ref, Media::video(source, String::from_str(filename)))
    }

    /// Attaches a media file to the field.
    pub fn with_media(self, field_ref: FieldRef<'_>, media: Media) -> (r: NoteBuilder)
        requires
            self.wf(),
        ensures
            r.wf(),
            r@ == self@.with_media(field_ref@.field.name, media@),
    {
        let mut b = self;
        b.media.push(FieldMedia::new(media, String::from_str(field_ref.name())));
        assert(b@.media =~= self@.with_media(field_ref@.field.name, media@).media);
        b
    }

    /// Finishes the note.
    ///
    /// The note is built exactly when every field name under which a
    /// content was put, and every field name of a media file, belongs to
    /// the builder's model. Otherwise nothing is built and the error names
    /// the first name that does not: the names of the contents are looked at
    /// first, in the order in which they came, then those of the media.
    pub fn build(self) -> (r: Result<Note, NoteError>)
        requires
            self.wf(),
        ensures
            r is Ok <==> self@.is_complete(),
            r matches Ok(n) ==> n.wf() && n@ == self@.note(),
            r matches Err(e) ==> exists|i: int|
                is_first_unknown(self@.model, self@.names(), i) && e@
                    == NoteErrorView::UnknownField(self@.names()[i]),
    {
        Note::new(self.model, self.field_values, self.tags, self.media)
    }
}

/// Adding a tag that the builder has already leaves the builder as it is,
/// so the note that is built holds the tag once.
pub proof fn lemma_with_tag_twice(b: NoteBuilderView, tag: Seq<char>)
    requires
        b.tags.no_duplicates(),
    ensures
        b.with_tag(tag).with_tag(tag) == b.with_tag(tag),
        b.with_tag(tag).note().tags.no_duplicates(),
        b.with_tag(tag).note().tags.filter(|t: Seq<char>| t == tag).len() == 1,
{
    crate::collections::lemma_with_tag_idempotent(b.tags, tag);
}

/// A builder that was given a content under a name that is no field of its
/// model builds no note.
pub proof fn lemma_foreign_field_is_refused(
    b: NoteBuilderView,
    name: Seq<char>,
    content: Seq<char>,
)
    requires
        !b.model.has_field(name),
    ensures
        !b.with_content(name, content).is_complete(),
        exists|i: int|
            is_first_unknown(b.model, b.with_content(name, content).names(), i),
{
    let after = b.with_content(name, content);
    let ks = keys(b.field_values);
    let ka = keys(after.field_values);
    let i = if ks.contains(name) {
        ks.index_of(name)
    } else {
        ks.len() as int
    };
    if ks.contains(name) {
        assert(ka =~= ks);
    } else {
        assert(ka =~= ks.push(name));
    }
    assert(ka[i] == name);
    assert(after.names()[i] == name);
    crate::models::note::lemma_first_unknown_exists(b.model, after.names(), i);
}

/// A builder that is given contents only under names of fields of its model
/// stays complete: its note can be built.
pub proof fn lemma_own_field_keeps_complete(
    b: NoteBuilderView,
    name: Seq<char>,
    content: Seq<char>,
)
    requires
        b.is_complete(),
        b.model.has_field(name),
    ensures
        b.with_content(name, content).is_complete(),
{
    crate::models::note::lemma_known_with_value(b.model, b.field_values, b.media, name, content);
}

} // verus!
