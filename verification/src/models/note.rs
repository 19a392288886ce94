//! Notes: a model, the contents of its fields, tags and media.

use crate::collections::{keys, value_of, with_tag, with_value, without_tag, FieldValues, TagSet};
use crate::error::{NoteError, NoteErrorView};
use crate::models::media::{media_fields, media_views, FieldMedia, FieldMediaView, Media};
use crate::models::model::{field_names, is_first_back, is_first_front, Model, ModelView};
use vstd::prelude::*;

verus! {

/// The identifier of a note.
#[derive(Debug, Clone, Copy, PartialEq, Eq, Hash)]
pub struct NoteId(pub u64);

impl NoteId {
    /// The number itself.
    pub fn value(&self) -> (r: u64)
        ensures
            r == self.0,
    {
        self.0
    }
}

/// The field names that a note refers to: those under which it holds a
/// content, in their order, and then those of its media, in their order.
pub open spec fn referenced_names(
    values: Seq<(Seq<char>, Seq<char>)>,
    media: Seq<FieldMediaView>,
) -> Seq<Seq<char>> {
    keys(values) + media_fields(media)
}

/// Every one of `names` is the name of a field of `model`.
pub open spec fn all_known(model: ModelView, names: Seq<Seq<char>>) -> bool {
    forall|i: int| 0 <= i < names.len() ==> model.has_field(#[trigger] names[i])
}

/// `i` is the first place in `names` that holds no field name of `model`.
pub open spec fn is_first_unknown(model: ModelView, names: Seq<Seq<char>>, i: int) -> bool {
    0 <= i < names.len() && !model.has_field(names[i]) && forall|k: int|
        0 <= k < i ==> model.has_field(#[trigger] names[k])
}

/// A note. Every field name that it refers to belongs to its model.
#[derive(Debug, PartialEq, Eq)]
pub struct Note {
    id: Option<NoteId>,
    model: Model,
    field_values: FieldValues,
    tags: TagSet,
    media: Vec<FieldMedia>,
}

/// What a [`Note`] is.
pub struct NoteView {
    /// The identifier, where the note is stored in the collection.
    pub id: Option<u64>,
    pub model: ModelView,
    /// Field names with their contents, in the order in which the names came.
    pub field_values: Seq<(Seq<char>, Seq<char>)>,
    /// The tags, in the order in which they came; none occurs twice.
    pub tags: Seq<Seq<char>>,
    pub media: Seq<FieldMediaView>,
}

impl NoteView {
    /// The content of the first field whose name suggests the question side.
    pub open spec fn front_value(self) -> Option<Seq<char>> {
        if exists|i: int| is_first_front(self.model.fields, i) {
            value_of(
                self.field_values,
                self.model.fields[choose|i: int| is_first_front(self.model.fields, i)].name,
            )
        } else {
            None
        }
    }

    /// The content of the first field whose name suggests the answer side.
    pub open spec fn back_value(self) -> Option<Seq<char>> {
        if exists|i: int| is_first_back(self.model.fields, i) {
            value_of(
                self.field_values,
                self.model.fields[choose|i: int| is_first_back(self.model.fields, i)].name,
            )
        } else {
            None
        }
    }
}

impl View for Note {
    type V = NoteView;

    closed spec fn view(&self) -> NoteView {
        NoteView {
            id: match self.id {
                Some(id) => Some(id.0),
                None => None,
            },
            model: self.model@,
            field_values: self.field_values@,
            tags: self.tags@,
            media: media_views(self.media@),
        }
    }
}

/// The view of an optional string.
pub open spec fn text_of(s: Option<&String>) -> Option<Seq<char>> {
    match s {
        Some(s) => Some(s@),
        None => None,
    }
}

/// Copies media with their fields.
pub fn clone_media(media: &Vec<FieldMedia>) -> (r: Vec<FieldMedia>)
    ensures
        media_views(r@) == media_views(media@),
{
    let mut r: Vec<FieldMedia> = Vec::new();
    let mut i: usize = 0;
    while i < media.len()
        invariant
            i <= media.len(),
            r@.len() == i,
            forall|k: int| 0 <= k < i ==> r@[k]@ == media@[k]@,
        decreases media.len() - i,
    {
        r.push(media[i].clone());
        i += 1;
    }
    assert(media_views(r@) =~= media_views(media@));
    r
}

impl Clone for Note {
    fn clone(&self) -> (r: Note)
        ensures
            r@ == self@,
    {
        Note {
            id: self.id,
            model: self.model.clone(),
            field_values: self.field_values.clone(),
            tags: self.tags.clone(),
            media: clone_media(&self.media),
        }
    }
}

/// The first of the names of `values` and then of `media` that is no field
/// of `model`.
fn first_unknown(model: &Model, values: &FieldValues, media: &Vec<FieldMedia>) -> (r: Option<
    String,
>)
    ensures
        r is None <==> all_known(model@, referenced_names(values@, media_views(media@))),
        r matches Some(name) ==> exists|i: int|
            is_first_unknown(model@, referenced_names(values@, media_views(media@)), i) && name@
                == referenced_names(values@, media_views(media@))[i],
{
    let ghost names = referenced_names(values@, media_views(media@));
    let mut i: usize = 0;
    while i < values.len()
        invariant
            i <= values@.len(),
            names == referenced_names(values@, media_views(media@)),
            forall|k: int| 0 <= k < i ==> model@.has_field(#[trigger] names[k]),
        decreases values@.len() - i,
    {
        assert(names[i as int] == values@[i as int].0);
        if model.get_field(values.key_at(i)).is_none() {
            assert(is_first_unknown(model@, names, i as int));
            return Some(String::from_str(values.key_at(i)));
        }
        i += 1;
    }
    let mut j: usize = 0;
    while j < media.len()
        invariant
            j <= media.len(),
            names == referenced_names(values@, media_views(media@)),
            forall|k: int| 0 <= k < values@.len() + j ==> model@.has_field(#[trigger] names[k]),
        decreases media.len() - j,
    {
        assert(names[values@.len() + j] == media@[j as int]@.field);
        if model.get_field(media[j].field()).is_none() {
            assert(is_first_unknown(model@, names, values@.len() + j));
            return Some(String::from_str(media[j].field()));
        }
        j += 1;
    }
    None
}

impl Note {
    /// The parts are valid and every field name that the note refers to
    /// belongs to its model.
    pub open spec fn wf(&self) -> bool {
        &&& self@.model.fields.len() > 0
        &&& field_names(self@.model.fields).no_duplicates()
        &&& keys(self@.field_values).no_duplicates()
        &&& self@.tags.no_duplicates()
        &&& all_known(self@.model, referenced_names(self@.field_values, self@.media))
    }

    /// Makes a note that is not yet stored in the collection.
    ///
    /// The note is made exactly when every field name under which a content
    /// is given, and every field name of a media file, belongs to the model.
    /// Otherwise the error names the first that does not: the names of the
    /// contents are looked at first, in their order, then those of the media.
    pub fn new(model: Model, field_values: FieldValues, tags: TagSet, media: Vec<FieldMedia>) -> (r:
        Result<Note, NoteError>)
        requires
            model.wf(),
            field_values.wf(),
            tags.wf(),
        ensures
            r is Ok <==> all_known(
                model@,
                referenced_names(field_values@, media_views(media@)),
            ),
            r matches Ok(n) ==> n.wf() && n@ == (NoteView {
                id: None,
                model: model@,
                field_values: field_values@,
                tags: tags@,
                media: media_views(media@),
            }),
            r matches Err(e) ==> exists|i: int|
                is_first_unknown(model@, referenced_names(field_values@, media_views(media@)), i)
                    && e@ == NoteErrorView::UnknownField(
                    referenced_names(field_values@, media_views(media@))[i],
                ),
    {
        match first_unknown(&model, &field_values, &media) {
            Some(name) => Err(NoteError::UnknownField(name)),
            None => Ok(Note { id: None, model, field_values, tags, media }),
        }
    }

    /// Makes a note that is stored in the collection under `id`. It is made
    /// or refused as [`Note::new`] says.
    pub fn with_id(
        id: NoteId,
        model: Model,
        field_values: FieldValues,
        tags: TagSet,
        media: Vec<FieldMedia>,
    ) -> (r: Result<Note, NoteError>)
        requires
            model.wf(),
            field_values.wf(),
            tags.wf(),
        ensures
            r is Ok <==> all_known(
                model@,
                referenced_names(field_values@, media_views(media@)),
            ),
            r matches Ok(n) ==> n.wf() && n@ == (NoteView {
                id: Some(id.0),
                model: model@,
                field_values: field_values@,
                tags: tags@,
                media: media_views(media@),
            }),
            r matches Err(e) ==> exists|i: int|
                is_first_unknown(model@, referenced_names(field_values@, media_views(media@)), i)
                    && e@ == NoteErrorView::UnknownField(
                    referenced_names(field_values@, media_views(media@))[i],
                ),
    {
        match Note::new(model, field_values, tags, media) {
            Ok(note) => {
                let Note { id: _, model, field_values, tags, media } = note;
                Ok(Note { id: Some(id), model, field_values, tags, media })
            },
            Err(e) => Err(e),
        }
    }

    /// The identifier, where the note is stored in the collection.
    pub fn id(&self) -> (r: Option<NoteId>)
        ensures
            match r {
                Some(id) => self@.id == Some(id.0),
                None => self@.id is None,
            },
    {
        self.id
    }

    /// The model of the note.
    pub fn model(&self) -> (r: &Model)
        ensures
            r@ == self@.model,
    {
        &self.model
    }

    /// The contents of the fields, by field name.
    pub fn field_values(&self) -> (r: &FieldValues)
        ensures
            r@ == self@.field_values,
    {
        &self.field_values
    }

    /// The content under the given field name.
    pub fn field_value(&self, field_name: &str) -> (r: Option<&String>)
        requires
            self.wf(),
        ensures
            text_of(r) == value_of(self@.field_values, field_name@),
    {
        self.field_values.get(field_name)
    }

    /// The tags of the note.
    pub fn tags(&self) -> (r: &TagSet)
        ensures
            r@ == self@.tags,
    {
        &self.tags
    }

    /// The media of the note.
    pub fn media(&self) -> (r: &[FieldMedia])
        ensures
            media_views(r@) == self@.media,
    {
        self.media.as_slice()
    }

    /// Whether the note has the given tag.
    pub fn has_tag(&self, tag: &str) -> (r: bool)
        ensures
            r == self@.tags.contains(tag@),
    {
        self.tags.contains(tag)
    }

    /// Writes `value` under `field_name`. A name that is no field of the
    /// model is refused and the note stays as it was.
    pub fn update_field(&mut self, field_name: &str, value: String) -> (r: Result<(), NoteError>)
        requires
            old(self).wf(),
        ensures
            final(self).wf(),
            r is Ok <==> old(self)@.model.has_field(field_name@),
            r is Ok ==> final(self)@ == (NoteView {
                field_values: with_value(old(self)@.field_values, field_name@, value@),
                ..old(self)@
            }),
            r matches Err(e) ==> e@ == NoteErrorView::UnknownField(field_name@) && final(self)@
                == old(self)@,
    {
        if self.model.get_field(field_name).is_none() {
            return Err(NoteError::UnknownField(String::from_str(field_name)));
        }
        self.field_values.insert(String::from_str(field_name), value);
        proof {
            lemma_known_with_value(
                old(self)@.model,
                old(self)@.field_values,
                old(self)@.media,
                field_name@,
                value@,
            );
        }
        Ok(())
    }

    /// Adds a tag. A tag that the note has already is not added again.
    pub fn add_tag(&mut self, tag: String)
        requires
            old(self).wf(),
        ensures
            final(self).wf(),
            final(self)@ == (NoteView { tags: with_tag(old(self)@.tags, tag@), ..old(self)@ }),
    {
        self.tags.insert(tag);
    }

    /// Takes a tag away and says whether the note had it.
    pub fn remove_tag(&mut self, tag: &str) -> (r: bool)
        requires
            old(self).wf(),
        ensures
            final(self).wf(),
            r == old(self)@.tags.contains(tag@),
            final(self)@ == (NoteView { tags: without_tag(old(self)@.tags, tag@), ..old(self)@ }),
    {
        self.tags.remove(tag)
    }

    /// Attaches a media file to the field `field_name`. A name that is no
    /// field of the model is refused and the note stays as it was.
    pub fn add_media(&mut self, field_name: &str, media: Media) -> (r: Result<(), NoteError>)
        requires
            old(self).wf(),
        ensures
            final(self).wf(),
            r is Ok <==> old(self)@.model.has_field(field_name@),
            r is Ok ==> final(self)@ == (NoteView {
                media: old(self)@.media.push(
                    FieldMediaView { media: media@, field: field_name@ },
                ),
                ..old(self)@
            }),
            r matches Err(e) ==> e@ == NoteErrorView::UnknownField(field_name@) && final(self)@
                == old(self)@,
    {
        if self.model.get_field(field_name).is_none() {
            return Err(NoteError::UnknownField(String::from_str(field_name)));
        }
        self.media.push(FieldMedia::new(media, String::from_str(field_name)));
        proof {
            let added = FieldMediaView { media: media@, field: field_name@ };
            assert(media_views(self.media@) =~= old(self)@.media.push(added));
            let before = referenced_names(old(self)@.field_values, old(self)@.media);
            let after = referenced_names(self@.field_values, self@.media);
            assert(after =~= before.push(field_name@));
            assert forall|i: int| 0 <= i < after.len() implies self@.model.has_field(
                #[trigger] after[i],
            ) by {
                if i < before.len() {
                    assert(after[i] == before[i]);
                }
            }
        }
        Ok(())
    }

    /// The content of the first field whose name suggests the question side.
    pub fn front_value(&self) -> (r: Option<&String>)
        requires
            self.wf(),
        ensures
            text_of(r) == self@.front_value(),
    {
        match self.model.front_field() {
            Some(field) => {
                proof {
                    let i = choose|i: int|
                        is_first_front(self@.model.fields, i) && field@ == self@.model.fields[i];
                    let j = choose|j: int| is_first_front(self@.model.fields, j);
                    assert(i == j) by {
                        if i < j {
                            assert(!self@.model.fields[i].is_front());
                        }
                        if j < i {
                            assert(!self@.model.fields[j].is_front());
                        }
                    }
                }
                self.field_values.get(field.name())
            },
            None => None,
        }
    }

    /// The content of the first field whose name suggests the answer side.
    pub fn back_value(&self) -> (r: Option<&String>)
        requires
            self.wf(),
        ensures
            text_of(r) == self@.back_value(),
    {
        match self.model.back_field() {
            Some(field) => {
                proof {
                    let i = choose|i: int|
                        is_first_back(self@.model.fields, i) && field@ == self@.model.fields[i];
                    let j = choose|j: int| is_first_back(self@.model.fields, j);
                    assert(i == j) by {
                        if i < j {
                            assert(!self@.model.fields[i].is_back());
                        }
                        if j < i {
                            assert(!self@.model.fields[j].is_back());
                        }
                    }
                }
                self.field_values.get(field.name())
            },
            None => None,
        }
    }
}

/// Writing a content under a field name of the model keeps every name that
/// the note refers to among the model's fields.
pub proof fn lemma_known_with_value(
    model: ModelView,
    values: Seq<(Seq<char>, Seq<char>)>,
    media: Seq<FieldMediaView>,
    key: Seq<char>,
    value: Seq<char>,
)
    requires
        all_known(model, referenced_names(values, media)),
        model.has_field(key),
    ensures
        all_known(model, referenced_names(with_value(values, key, value), media)),
{
    let before = referenced_names(values, media);
    let after_values = with_value(values, key, value);
    let after = referenced_names(after_values, media);
    assert forall|i: int| 0 <= i < after.len() implies model.has_field(#[trigger] after[i]) by {
        if keys(values).contains(key) {
            assert(keys(after_values) =~= keys(values));
            assert(after[i] == before[i]);
        } else {
            assert(keys(after_values) =~= keys(values).push(key));
            if i < values.len() {
                assert(after[i] == before[i]);
            } else if i == values.len() {
                assert(after[i] == key);
            } else {
                assert(after[i] == before[i - 1]);
            }
        }
    }
}

/// A note whose contents or media name a field that its model does not have
/// cannot be made: the names are then not all known, which is exactly when
/// making the note fails.
pub proof fn lemma_unknown_field_is_refused(
    model: ModelView,
    values: Seq<(Seq<char>, Seq<char>)>,
    media: Seq<FieldMediaView>,
    i: int,
)
    requires
        0 <= i < values.len(),
        !model.has_field(values[i].0),
    ensures
        !all_known(model, referenced_names(values, media)),
        exists|j: int| is_first_unknown(model, referenced_names(values, media), j),
{
    let names = referenced_names(values, media);
    assert(names[i] == values[i].0);
    lemma_first_unknown_exists(model, names, i);
}

/// Where some name is unknown there is a first unknown name.
pub proof fn lemma_first_unknown_exists(model: ModelView, names: Seq<Seq<char>>, i: int)
    requires
        0 <= i < names.len(),
        !model.has_field(names[i]),
    ensures
        exists|j: int| 0 <= j <= i && is_first_unknown(model, names, j),
    decreases i,
{
    if exists|k: int| 0 <= k < i && !model.has_field(names[k]) {
        let k = choose|k: int| 0 <= k < i && !model.has_field(names[k]);
        lemma_first_unknown_exists(model, names, k);
    } else {
        assert(is_first_unknown(model, names, i));
    }
}

} // verus!
