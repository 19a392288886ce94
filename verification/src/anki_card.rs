//! Cards described by the name and identifier of their model, and the
//! builder that puts them together.

use crate::builders::note::{encode_text, html_text};
use crate::parameter_types::{MediaSource, MediaSourceView};
use crate::text::{str_eq, texts};
use std::cmp::Ordering;
use vstd::prelude::*;
use vstd::std_specs::cmp::PartialOrdSpecImpl;

verus! {

/// The identifier of a deck.
#[derive(Debug, Clone, Copy, PartialEq, Eq, Hash)]
pub struct DeckId(pub u64);

/// The identifier of a model.
#[derive(Debug, Clone, Copy, PartialEq, Eq, Hash)]
pub struct ModelId(pub u64);

/// An identifier with a name: what a deck or a model is known by.
pub struct NamedView {
    pub id: u64,
    pub name: Seq<char>,
}

/// A deck, known by identifier and name.
#[derive(Debug, PartialEq, Eq)]
pub struct AnkiDeck {
    id: DeckId,
    name: String,
}

impl View for AnkiDeck {
    type V = NamedView;

    closed spec fn view(&self) -> NamedView {
        NamedView { id: self.id.0, name: self.name@ }
    }
}

impl AnkiDeck {
    /// The deck with the given identifier and name.
    pub fn new(id: u64, name: String) -> (r: AnkiDeck)
        ensures
            r@ == (NamedView { id, name: name@ }),
    {
        AnkiDeck { id: DeckId(id), name }
    }

    /// The identifier of the deck.
    pub fn get_id(&self) -> (r: DeckId)
        ensures
            r.0 == self@.id,
    {
        self.id
    }

    /// The name of the deck.
    pub fn get_name(&self) -> (r: &str)
        ensures
            r@ == self@.name,
    {
        self.name.as_str()
    }
}

/// A model, known by identifier and name. Two of them are ordered by their
/// identifiers.
#[derive(Debug, PartialEq, Eq)]
pub struct AnkiModelIdentifier {
    id: ModelId,
    name: String,
}

impl View for AnkiModelIdentifier {
    type V = NamedView;

    closed spec fn view(&self) -> NamedView {
        NamedView { id: self.id.0, name: self.name@ }
    }
}

impl Clone for AnkiModelIdentifier {
    fn clone(&self) -> (r: AnkiModelIdentifier)
        ensures
            r@ == self@,
    {
        AnkiModelIdentifier { id: self.id, name: self.name.clone() }
    }
}

impl AnkiModelIdentifier {
    /// The model with the given identifier and name.
    pub fn new(id: u64, name: String) -> (r: AnkiModelIdentifier)
        ensures
            r@ == (NamedView { id, name: name@ }),
    {
        AnkiModelIdentifier { id: ModelId(id), name }
    }

    /// The identifier of the model.
    pub fn id(&self) -> (r: ModelId)
        ensures
            r.0 == self@.id,
    {
        self.id
    }

    /// The name of the model.
    pub fn get_name(&self) -> (r: &str)
        ensures
            r@ == self@.name,
    {
        self.name.as_str()
    }

    /// The model as it is shown: its name.
    pub fn to_string(&self) -> (r: String)
        ensures
            r@ == self@.name,
    {
        self.name.clone()
    }
}

impl PartialOrd for AnkiModelIdentifier {
    fn partial_cmp(&self, other: &AnkiModelIdentifier) -> (r: Option<Ordering>) {
        if self.id.0 < other.id.0 {
            Some(Ordering::Less)
        } else if self.id.0 > other.id.0 {
            Some(Ordering::Greater)
        } else {
            Some(Ordering::Equal)
        }
    }
}

impl PartialOrdSpecImpl for AnkiModelIdentifier {
    open spec fn obeys_partial_cmp_spec() -> bool {
        true
    }

    closed spec fn partial_cmp_spec(&self, other: &AnkiModelIdentifier) -> Option<Ordering> {
        if self.id.0 < other.id.0 {
            Some(Ordering::Less)
        } else if self.id.0 > other.id.0 {
            Some(Ordering::Greater)
        } else {
            Some(Ordering::Equal)
        }
    }
}

/// A model, known by identifier and name.
#[derive(Debug, PartialEq, Eq)]
pub struct AnkiModel {
    id: ModelId,
    name: String,
}

impl View for AnkiModel {
    type V = NamedView;

    closed spec fn view(&self) -> NamedView {
        NamedView { id: self.id.0, name: self.name@ }
    }
}

impl Clone for AnkiModel {
    fn clone(&self) -> (r: AnkiModel)
        ensures
            r@ == self@,
    {
        AnkiModel { id: self.id, name: self.name.clone() }
    }
}

impl AnkiModel {
    /// The model with the given identifier and name.
    pub fn new(id: u64, name: String) -> (r: AnkiModel)
        ensures
            r@ == (NamedView { id, name: name@ }),
    {
        AnkiModel { id: ModelId(id), name }
    }

    /// The identifier of the model.
    pub fn get_id(&self) -> (r: ModelId)
        ensures
            r.0 == self@.id,
    {
        self.id
    }

    /// The name of the model.
    pub fn get_name(&self) -> (r: &str)
        ensures
            r@ == self@.name,
    {
        self.name.as_str()
    }
}

/// A field, known by the identifier of its model and its name.
#[derive(Debug, PartialEq, Eq, Hash)]
pub struct AnkiField {
    model_id: ModelId,
    name: String,
}

/// What an [`AnkiField`] is.
pub struct AnkiFieldView {
    pub model_id: u64,
    pub name: Seq<char>,
}

impl View for AnkiField {
    type V = AnkiFieldView;

    closed spec fn view(&self) -> AnkiFieldView {
        AnkiFieldView { model_id: self.model_id.0, name: self.name@ }
    }
}

impl Clone for AnkiField {
    fn clone(&self) -> (r: AnkiField)
        ensures
            r@ == self@,
    {
        AnkiField { model_id: self.model_id, name: self.name.clone() }
    }
}

impl AnkiField {
    /// The field named `name` of the model with the identifier `model_id`.
    pub fn new(model_id: ModelId, name: String) -> (r: AnkiField)
        ensures
            r@ == (AnkiFieldView { model_id: model_id.0, name: name@ }),
    {
        AnkiField { model_id, name }
    }

    /// The name of the field.
    pub fn name(&self) -> (r: &str)
        ensures
            r@ == self@.name,
    {
        self.name.as_str()
    }

    /// The identifier of the field's model.
    pub fn model_id(&self) -> (r: ModelId)
        ensures
            r.0 == self@.model_id,
    {
        self.model_id
    }

    /// Whether two fields are the same field: of one model and of one name.
    pub fn same_as(&self, other: &AnkiField) -> (r: bool)
        ensures
            r == (self@ == other@),
    {
        self.model_id.0 == other.model_id.0 && str_eq(self.name.as_str(), other.name.as_str())
    }
}

/// The kind of a media file.
#[derive(Debug, Clone, Copy, PartialEq, Eq)]
pub enum MediaType {
    Audio,
    Video,
    Picture,
}

/// A media file of a card: its kind, its source, the name under which it is
/// stored and the field in which it is shown.
pub type CardMedia = (MediaType, MediaSource, String, AnkiField);

/// What a [`CardMedia`] is.
pub type CardMediaView = (MediaType, MediaSourceView, Seq<char>, AnkiFieldView);

/// The views of a sequence of card media.
pub open spec fn card_media_views(v: Seq<CardMedia>) -> Seq<CardMediaView> {
    v.map_values(|m: CardMedia| (m.0, m.1@, m.2@, m.3@))
}

/// The views of a sequence of fields with their contents.
pub open spec fn content_views(v: Seq<(AnkiField, String)>) -> Seq<(AnkiFieldView, Seq<char>)> {
    v.map_values(|e: (AnkiField, String)| (e.0@, e.1@))
}

/// The fields under which `entries` hold a content, in order.
pub open spec fn populated(entries: Seq<(AnkiFieldView, Seq<char>)>) -> Seq<AnkiFieldView> {
    entries.map_values(|e: (AnkiFieldView, Seq<char>)| e.0)
}

/// `entries` with `content` in `field`: in the place of the old content
/// where the field has one already, at the end where it has none.
pub open spec fn with_content(
    entries: Seq<(AnkiFieldView, Seq<char>)>,
    field: AnkiFieldView,
    content: Seq<char>,
) -> Seq<(AnkiFieldView, Seq<char>)> {
    if populated(entries).contains(field) {
        entries.update(populated(entries).index_of(field), (field, content))
    } else {
        entries.push((field, content))
    }
}

/// What an [`AnkiCard`] or an [`AnkiCardBuilder`] holds.
pub struct AnkiCardView {
    pub model: NamedView,
    /// The fields with their contents, in the order in which the fields
    /// first came; no field occurs twice.
    pub fields: Seq<(AnkiFieldView, Seq<char>)>,
    pub media: Seq<CardMediaView>,
    /// The tags in the order in which they came; a tag may occur twice.
    pub tags: Seq<Seq<char>>,
}

/// A card: its model, the contents of its fields, its media and its tags.
pub struct AnkiCard {
    model: AnkiModelIdentifier,
    fields: Vec<(AnkiField, String)>,
    media: Vec<CardMedia>,
    tags: Vec<String>,
}

impl View for AnkiCard {
    type V = AnkiCardView;

    closed spec fn view(&self) -> AnkiCardView {
        AnkiCardView {
            model: self.model@,
            fields: content_views(self.fields@),
            media: card_media_views(self.media@),
            tags: texts(self.tags@),
        }
    }
}

/// The views of a list of borrowed fields.
pub open spec fn field_ref_views(v: Seq<&AnkiField>) -> Seq<AnkiFieldView> {
    v.map_values(|f: &AnkiField| f@)
}

/// The views of a list of borrowed fields with their contents.
pub open spec fn content_ref_views(v: Seq<(&AnkiField, &String)>) -> Seq<
    (AnkiFieldView, Seq<char>),
> {
    v.map_values(|e: (&AnkiField, &String)| (e.0@, e.1@))
}

/// The views of a list of string slices.
pub open spec fn str_views(v: Seq<&str>) -> Seq<Seq<char>> {
    v.map_values(|s: &str| s@)
}

impl AnkiCard {
    /// No field holds two contents.
    pub open spec fn wf(&self) -> bool {
        populated(self@.fields).no_duplicates()
    }

    /// The model of the card.
    pub fn get_model_identifier(&self) -> (r: &AnkiModelIdentifier)
        ensures
            r@ == self@.model,
    {
        &self.model
    }

    /// The fields that hold a content, in the order in which they came.
    pub fn get_populated_fields(&self) -> (r: Vec<&AnkiField>)
        ensures
            field_ref_views(r@) == populated(self@.fields),
    {
        let mut r: Vec<&AnkiField> = Vec::new();
        let mut i: usize = 0;
        while i < self.fields.len()
            invariant
                i <= self.fields.len(),
                r@.len() == i,
                forall|k: int| 0 <= k < i ==> r@[k]@ == self.fields@[k].0@,
            decreases self.fields.len() - i,
        {
            r.push(&self.fields[i].0);
            i += 1;
        }
        assert(field_ref_views(r@) =~= populated(self@.fields));
        r
    }

    /// The fields with their contents, in the order in which the fields
    /// came.
    pub fn get_fields_with_content(&self) -> (r: Vec<(&AnkiField, &String)>)
        ensures
            content_ref_views(r@) == self@.fields,
    {
        let mut r: Vec<(&AnkiField, &String)> = Vec::new();
        let mut i: usize = 0;
        while i < self.fields.len()
            invariant
                i <= self.fields.len(),
                r@.len() == i,
                forall|k: int|
                    0 <= k < i ==> r@[k].0@ == self.fields@[k].0@ && r@[k].1@
                        == self.fields@[k].1@,
            decreases self.fields.len() - i,
        {
            r.push((&self.fields[i].0, &self.fields[i].1));
            i += 1;
        }
        assert(content_ref_views(r@) =~= self@.fields);
        r
    }

    /// The tags, in the order in which they came.
    pub fn get_tags(&self) -> (r: Vec<&str>)
        ensures
            str_views(r@) == self@.tags,
    {
        let mut r: Vec<&str> = Vec::new();
        let mut i: usize = 0;
        while i < self.tags.len()
            invariant
                i <= self.tags.len(),
                r@.len() == i,
                forall|k: int| 0 <= k < i ==> r@[k]@ == self.tags@[k]@,
            decreases self.tags.len() - i,
        {
            r.push(self.tags[i].as_str());
            i += 1;
        }
        assert(str_views(r@) =~= self@.tags);
        r
    }

    /// The media, in the order in which they came.
    pub fn get_media(&self) -> (r: &[CardMedia])
        ensures
            card_media_views(r@) == self@.media,
    {
        self.media.as_slice()
    }
}

/// Collects the contents, tags and media of a card.
pub struct AnkiCardBuilder {
    model: AnkiModelIdentifier,
    fields: Vec<(AnkiField, String)>,
    media: Vec<CardMedia>,
    tags: Vec<String>,
}

impl View for AnkiCardBuilder {
    type V = AnkiCardView;

    closed spec fn view(&self) -> AnkiCardView {
        AnkiCardView {
            model: self.model@,
            fields: content_views(self.fields@),
            media: card_media_views(self.media@),
            tags: texts(self.tags@),
        }
    }
}

impl AnkiCardBuilder {
    /// No field holds two contents.
    pub open spec fn wf(&self) -> bool {
        populated(self@.fields).no_duplicates()
    }

    /// The builder for a card of `model`, with no content, tag or media.
    pub fn new_for_model(model: AnkiModelIdentifier) -> (r: AnkiCardBuilder)
        ensures
            r.wf(),
            r@ == (AnkiCardView {
                model: model@,
                fields: Seq::empty(),
                media: Seq::empty(),
                tags: Seq::empty(),
            }),
    {
        let r = AnkiCardBuilder { model, fields: Vec::new(), tags: Vec::new(), media: Vec::new() };
        assert(r@.fields =~= Seq::<(AnkiFieldView, Seq<char>)>::empty());
        assert(r@.media =~= Seq::<CardMediaView>::empty());
        assert(r@.tags =~= Seq::<Seq<char>>::empty());
        r
    }

    /// Puts `content` into `field` as it is. What was in the field before
    /// is replaced.
    pub fn add_field_raw(self, field: AnkiField, content: &str) -> (r: AnkiCardBuilder)
        requires
            self.wf(),
        ensures
            r.wf(),
            r@ == (AnkiCardView { fields: with_content(self@.fields, field@, content@), ..self@ }),
    {
        let mut b = self;
        let ghost before = content_views(b.fields@);
        let ghost keys = populated(before);
        let mut i: usize = 0;
        while i < b.fields.len()
            invariant
                i <= b.fields.len(),
                b.fields@ == self.fields@,
                b.model == self.model,
                b.media == self.media,
                b.tags == self.tags,
                before == content_views(b.fields@),
                keys == populated(before),
                keys.no_duplicates(),
                forall|k: int| 0 <= k < i ==> keys[k] != field@,
            decreases b.fields.len() - i,
        {
            if b.fields[i].0.same_as(&field) {
                proof {
                    assert(keys[i as int] == field@);
                    keys.index_of_first_ensures(field@);
                }
                b.fields.set(i, (field, String::from_str(content)));
                proof {
                    let after = content_views(b.fields@);
                    assert(after =~= before.update(i as int, (field@, content@)));
                    assert(populated(after) =~= keys);
                }
                return b;
            }
            i += 1;
        }
        b.fields.push((field, String::from_str(content)));
        proof {
            let after = content_views(b.fields@);
            assert(after =~= before.push((field@, content@)));
            assert(populated(after) =~= keys.push(field@));
        }
        b
    }

    /// Puts `content` into `field`, with `&`, `<` and `>` written as
    /// entities so that they show as text.
    pub fn add_field(self, field: AnkiField, content: &str) -> (r: AnkiCardBuilder)
        requires
            self.wf(),
        ensures
            r.wf(),
            r@ == (AnkiCardView {
                fields: with_content(self@.fields, field@, html_text(content@)),
                ..self@
            }),
    {
        let escaped = encode_text(content);
        self.add_field_raw(field, escaped.as_str())
    }

    /// Adds a tag at the end of the tags.
    pub fn add_tag(self, tag: &str) -> (r: AnkiCardBuilder)
        ensures
            r@ == (AnkiCardView { tags: self@.tags.push(tag@), ..self@ }),
    {
        let mut b = self;
        b.tags.push(String::from_str(tag));
        assert(b@.tags =~= self@.tags.push(tag@));
        b
    }

    /// Adds a media file at the end of the media.
    pub fn add_media(
        self,
        media_type: MediaType,
        source: MediaSource,
        filename: String,
        field: AnkiField,
    ) -> (r: AnkiCardBuilder)
        ensures
            r@ == (AnkiCardView {
                media: self@.media.push((media_type, source@, filename@, field@)),
                ..self@
            }),
    {
        let mut b = self;
        b.media.push((media_type, source, filename, field));
        assert(b@.media =~= self@.media.push((media_type, source@, filename@, field@)));
        b
    }

    /// Attaches a picture to `field`.
    pub fn add_image(self, source: MediaSource, filename: String, field: AnkiField) -> (r:
        AnkiCardBuilder)
        ensures
            r@ == (AnkiCardView {
                media: self@.media.push((MediaType::Picture, source@, filename@, field@)),
                ..self@
            }),
    {
        self.add_media(MediaType::Picture, source, filename, field)
    }

    /// Attaches a sound file to `field`.
    pub fn add_audio(self, source: MediaSource, filename: String, field: AnkiField) -> (r:
        AnkiCardBuilder)
        ensures
            r@ == (AnkiCardView {
                media: self@.media.push((MediaType::Audio, source@, filename@, field@)),
                ..self@
            }),
    {
        self.add_media(MediaType::Audio, source, filename, field)
    }

    /// Attaches a film to `field`.
    pub fn add_video(self, source: MediaSource, filename: String, field: AnkiField) -> (r:
        AnkiCardBuilder)
        ensures
            r@ == (AnkiCardView {
                media: self@.media.push((MediaType::Video, source@, filename@, field@)),
                ..self@
            }),
    {
        self.add_media(MediaType::Video, source, filename, field)
    }

    /// The card that was put together.
    pub fn build(self) -> (r: AnkiCard)
        ensures
            r@ == self@,
    {
        AnkiCard { model: self.model, fields: self.fields, tags: self.tags, media: self.media }
    }
}

} // verus!
