//! Cards: a model with the contents, tags and media of one card.

use crate::collections::{keys, value_of, FieldValues, TagSet};
use crate::models::media::{MediaSource, MediaSourceView, MediaType};
use crate::models::model::{
    is_first_back, is_first_front, is_first_named, Field, FieldView, Model, ModelView,
};
use crate::models::note::text_of;
use vstd::prelude::*;

verus! {

/// The identifier of a card.
#[derive(Debug, Clone, Copy, PartialEq, Eq, Hash)]
pub struct CardId(pub u64);

impl CardId {
    /// The number itself.
    pub fn value(&self) -> (r: u64)
        ensures
            r == self.0,
    {
        self.0
    }
}

/// A media file of a card: its kind, its source, the name under which it is
/// stored and the field in which it is shown.
pub type CardMedia = (MediaType, MediaSource, String, Field);

/// What a [`CardMedia`] is.
pub type CardMediaView = (MediaType, MediaSourceView, Seq<char>, FieldView);

/// The views of a sequence of card media.
pub open spec fn card_media_views(v: Seq<CardMedia>) -> Seq<CardMediaView> {
    v.map_values(|m: CardMedia| (m.0, m.1@, m.2@, m.3@))
}

/// The field of `model` with the given name.
pub open spec fn field_named(model: ModelView, name: Seq<char>) -> FieldView {
    model.fields[choose|i: int| is_first_named(model.fields, name, i)]
}

/// The entries whose name is a field name of `model`, each as the field and
/// the content, in the order of the entries.
pub open spec fn fields_with_values(
    model: ModelView,
    entries: Seq<(Seq<char>, Seq<char>)>,
) -> Seq<(FieldView, Seq<char>)>
    decreases entries.len(),
{
    if entries.len() == 0 {
        Seq::empty()
    } else if model.has_field(entries.last().0) {
        fields_with_values(model, entries.drop_last()).push(
            (field_named(model, entries.last().0), entries.last().1),
        )
    } else {
        fields_with_values(model, entries.drop_last())
    }
}

/// The views of a sequence of fields with contents.
pub open spec fn pair_views(v: Seq<(&Field, &str)>) -> Seq<(FieldView, Seq<char>)> {
    v.map_values(|p: (&Field, &str)| (p.0@, p.1@))
}

/// A card with all that belongs to it.
#[derive(Debug)]
pub struct Card {
    model: Model,
    field_values: FieldValues,
    tags: TagSet,
    media: Vec<CardMedia>,
}

/// What a [`Card`] is.
pub struct CardView {
    pub model: ModelView,
    /// Field names with their contents, in the order in which the names came.
    pub field_values: Seq<(Seq<char>, Seq<char>)>,
    /// The tags, in the order in which they came; none occurs twice.
    pub tags: Seq<Seq<char>>,
    pub media: Seq<CardMediaView>,
}

impl CardView {
    /// The content of the first field whose name suggests the question side.
    pub open spec fn front_value(self) -> Option<Seq<char>> {
        if exists|i: int| is_first_front(self.model.fields, i) {
            value_of(
                self.field_values,
                self.model.fields[choose|i: int| is_first_front(self.model.fields, i)].name,
            )
        } else {
            None
        }
    }

    /// The content of the first field whose name suggests the answer side.
    pub open spec fn back_value(self) -> Option<Seq<char>> {
        if exists|i: int| is_first_back(self.model.fields, i) {
            value_of(
                self.field_values,
                self.model.fields[choose|i: int| is_first_back(self.model.fields, i)].name,
            )
        } else {
            None
        }
    }
}

impl View for Card {
    type V = CardView;

    closed spec fn view(&self) -> CardView {
        CardView {
            model: self.model@,
            field_values: self.field_values@,
            tags: self.tags@,
            media: card_media_views(self.media@),
        }
    }
}

impl Card {
    /// No field name and no tag occurs twice.
    pub open spec fn wf(&self) -> bool {
        keys(self@.field_values).no_duplicates() && self@.tags.no_duplicates()
    }

    /// The card with the given model and data.
    pub fn new(model: Model, field_values: FieldValues, tags: TagSet, media: Vec<CardMedia>) -> (c:
        Card)
        requires
            field_values.wf(),
            tags.wf(),
        ensures
            c.wf(),
            c@ == (CardView {
                model: model@,
                field_values: field_values@,
                tags: tags@,
                media: card_media_views(media@),
            }),
    {
        Card { model, field_values, tags, media }
    }

    /// The model of the card.
    pub fn model(&self) -> (r: &Model)
        ensures
            r@ == self@.model,
    {
        &self.model
    }

    /// The contents of the card by field: one pair for every content whose
    /// name is a field name of the model, in the order of the contents.
    pub fn fields(&self) -> (r: Vec<(&Field, &str)>)
        ensures
            pair_views(r@) == fields_with_values(self@.model, self@.field_values),
    {
        let mut r: Vec<(&Field, &str)> = Vec::new();
        let mut i: usize = 0;
        while i < self.field_values.len()
            invariant
                i <= self@.field_values.len(),
                pair_views(r@) == fields_with_values(
                    self@.model,
                    self@.field_values.take(i as int),
                ),
            decreases self@.field_values.len() - i,
        {
            let name = self.field_values.key_at(i);
            let value = self.field_values.value_at(i);
            proof {
                let t = self@.field_values.take(i + 1);
                assert(t.drop_last() == self@.field_values.take(i as int));
                assert(t.last() == self@.field_values[i as int]);
            }
            match self.model.get_field(name) {
                Some(field) => {
                    proof {
                        let a = choose|a: int|
                            is_first_named(self@.model.fields, name@, a) && field@
                                == self@.model.fields[a];
                        let b = choose|b: int| is_first_named(self@.model.fields, name@, b);
                        assert(a == b) by {
                            if a < b {
                                assert(self@.model.fields[a].name != name@);
                            }
                            if b < a {
                                assert(self@.model.fields[b].name != name@);
                            }
                        }
                    }
                    let ghost before = pair_views(r@);
                    r.push((field, value));
                    assert(pair_views(r@) =~= before.push((field@, value@)));
                },
                None => {},
            }
            i += 1;
        }
        assert(self@.field_values.take(self@.field_values.len() as int) == self@.field_values);
        r
    }

    /// The content under the given field name.
    pub fn field_value(&self, field_name: &str) -> (r: Option<&String>)
        requires
            self.wf(),
        ensures
            text_of(r) == value_of(self@.field_values, field_name@),
    {
        self.field_values.get(field_name)
    }

    /// The tags of the card.
    pub fn tags(&self) -> (r: &TagSet)
        ensures
            r@ == self@.tags,
    {
        &self.tags
    }

    /// The media of the card.
    pub fn media(&self) -> (r: &[CardMedia])
        ensures
            card_media_views(r@) == self@.media,
    {
        self.media.as_slice()
    }

    /// Whether the card has the given tag.
    pub fn has_tag(&self, tag: &str) -> (r: bool)
        ensures
            r == self@.tags.contains(tag@),
    {
        self.tags.contains(tag)
    }

    /// The content of the first field whose name suggests the question side.
    pub fn front_value(&self) -> (r: Option<&String>)
        requires
            self.wf(),
        ensures
            text_of(r) == self@.front_value(),
    {
        match self.model.front_field() {
            Some(field) => {
                proof {
                    let i = choose|i: int|
                        is_first_front(self@.model.fields, i) && field@ == self@.model.fields[i];
                    let j = choose|j: int| is_first_front(self@.model.fields, j);
                    assert(i == j) by {
                        if i < j {
                            assert(!self@.model.fields[i].is_front());
                        }
                        if j < i {
                            assert(!self@.model.fields[j].is_front());
                        }
                    }
                }
                self.field_values.get(field.name())
            },
            None => None,
        }
    }

    /// The content of the first field whose name suggests the answer side.
    pub fn back_value(&self) -> (r: Option<&String>)
        requires
            self.wf(),
        ensures
            text_of(r) == self@.back_value(),
    {
        match self.model.back_field() {
            Some(field) => {
                proof {
                    let i = choose|i: int|
                        is_first_back(self@.model.fields, i) && field@ == self@.model.fields[i];
                    let j = choose|j: int| is_first_back(self@.model.fields, j);
                    assert(i == j) by {
                        if i < j {
                            assert(!self@.model.fields[i].is_back());
                        }
                        if j < i {
                            assert(!self@.model.fields[j].is_back());
                        }
                    }
                }
                self.field_values.get(field.name())
            },
            None => None,
        }
    }
}

} // verus!
