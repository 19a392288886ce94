//! Note types: a model and its fields.

use crate::error::{AnkiError, AnkiErrorView};
use crate::text::{ascii_lowercase, chars_of, contains_text, find, lowercase_chars, str_eq};
use vstd::prelude::*;

verus! {

/// The identifier of a model.
#[derive(Debug, Clone, Copy, PartialEq, Eq, Hash)]
pub struct ModelId(pub u64);

/// A named slot of a model.
#[derive(Debug, PartialEq, Eq, Hash)]
pub struct Field {
    name: String,
    ord: usize,
}

/// What a [`Field`] is: its name and its place in the model.
pub struct FieldView {
    pub name: Seq<char>,
    pub ord: usize,
}

impl FieldView {
    /// The name suggests the question side: written in lower case it holds
    /// `front` or `question`.
    pub open spec fn is_front(self) -> bool {
        contains_text(ascii_lowercase(self.name), "front"@) || contains_text(
            ascii_lowercase(self.name),
            "question"@,
        )
    }

    /// The name suggests the answer side: written in lower case it holds
    /// `back` or `answer`.
    pub open spec fn is_back(self) -> bool {
        contains_text(ascii_lowercase(self.name), "back"@) || contains_text(
            ascii_lowercase(self.name),
            "answer"@,
        )
    }
}

impl View for Field {
    type V = FieldView;

    closed spec fn view(&self) -> FieldView {
        FieldView { name: self.name@, ord: self.ord }
    }
}

impl Clone for Field {
    fn clone(&self) -> (r: Field)
        ensures
            r@ == self@,
    {
        Field { name: self.name.clone(), ord: self.ord }
    }
}

/// Whether `pattern` stands somewhere in `text`.
fn holds(text: &Vec<char>, pattern: &str) -> (r: bool)
    ensures
        r == contains_text(text@, pattern@),
{
    let pat = chars_of(pattern);
    match find(text, &pat) {
        Some(i) => true,
        None => false,
    }
}

impl Field {
    /// The field with the given name at place `ord`.
    pub fn new(name: String, ord: usize) -> (f: Field)
        ensures
            f@ == (FieldView { name: name@, ord }),
    {
        Field { name, ord }
    }

    /// The name of the field.
    pub fn name(&self) -> (r: &str)
        ensures
            r@ == self@.name,
    {
        self.name.as_str()
    }

    /// The place of the field in its model.
    pub fn ord(&self) -> (r: usize)
        ensures
            r == self@.ord,
    {
        self.ord
    }

    /// Whether the name suggests the question side.
    pub fn is_front(&self) -> (r: bool)
        ensures
            r == self@.is_front(),
    {
        let low = lowercase_chars(self.name.as_str());
        holds(&low, "front") || holds(&low, "question")
    }

    /// Whether the name suggests the answer side.
    pub fn is_back(&self) -> (r: bool)
        ensures
            r == self@.is_back(),
    {
        let low = lowercase_chars(self.name.as_str());
        holds(&low, "back") || holds(&low, "answer")
    }
}

/// The views of a sequence of fields.
pub open spec fn field_views(fields: Seq<Field>) -> Seq<FieldView> {
    fields.map_values(|f: Field| f@)
}

/// The names of a sequence of fields.
pub open spec fn field_names(fields: Seq<FieldView>) -> Seq<Seq<char>> {
    fields.map_values(|f: FieldView| f.name)
}

/// What a model asks of its fields: there is at least one, and no two share
/// a name.
pub open spec fn valid_fields(fields: Seq<FieldView>) -> bool {
    fields.len() > 0 && field_names(fields).no_duplicates()
}

/// `j` is the first place whose name stood at an earlier place already.
pub open spec fn is_first_repeat(names: Seq<Seq<char>>, j: int) -> bool {
    0 <= j < names.len() && names.take(j).no_duplicates() && names.take(j).contains(names[j])
}

/// `i` is the first place in `fields` that holds the name `name`.
pub open spec fn is_first_named(fields: Seq<FieldView>, name: Seq<char>, i: int) -> bool {
    0 <= i < fields.len() && fields[i].name == name && forall|k: int|
        0 <= k < i ==> fields[k].name != name
}

/// `i` is the first place in `fields` whose name suggests the question side.
pub open spec fn is_first_front(fields: Seq<FieldView>, i: int) -> bool {
    0 <= i < fields.len() && fields[i].is_front() && forall|k: int|
        0 <= k < i ==> !fields[k].is_front()
}

/// `i` is the first place in `fields` whose name suggests the answer side.
pub open spec fn is_first_back(fields: Seq<FieldView>, i: int) -> bool {
    0 <= i < fields.len() && fields[i].is_back() && forall|k: int|
        0 <= k < i ==> !fields[k].is_back()
}

/// `r` is what making a model of the identifier `id`, the name `name` and
/// the fields `fields` gives: the model where the fields are valid, and
/// otherwise the failure that says what is wrong with them.
pub open spec fn makes_model(
    id: u64,
    name: Seq<char>,
    fields: Seq<FieldView>,
    r: Result<Model, AnkiError>,
) -> bool {
    &&& r is Ok <==> valid_fields(fields)
    &&& r matches Ok(m) ==> m.wf() && m@ == (ModelView { id, name, fields })
    &&& r matches Err(e) ==> if fields.len() == 0 {
        e@ == AnkiErrorView::ValidationError("Model must have at least one field"@)
    } else {
        exists|j: int|
            is_first_repeat(field_names(fields), j) && e@ == AnkiErrorView::ValidationError(
                "Duplicate field name: "@ + field_names(fields)[j],
            )
    }
}

/// A note type: an identifier, a name and the fields in their order.
#[derive(Debug, PartialEq, Eq, Hash)]
pub struct Model {
    id: ModelId,
    name: String,
    fields: Vec<Field>,
}

/// What a [`Model`] is.
pub struct ModelView {
    pub id: u64,
    pub name: Seq<char>,
    pub fields: Seq<FieldView>,
}

impl ModelView {
    /// Whether the model has a field of this name.
    pub open spec fn has_field(self, name: Seq<char>) -> bool {
        field_names(self.fields).contains(name)
    }
}

impl View for Model {
    type V = ModelView;

    closed spec fn view(&self) -> ModelView {
        ModelView { id: self.id.0, name: self.name@, fields: field_views(self.fields@) }
    }
}

impl Clone for Model {
    fn clone(&self) -> (r: Model)
        ensures
            r@ == self@,
    {
        let mut fields: Vec<Field> = Vec::new();
        let mut i: usize = 0;
        while i < self.fields.len()
            invariant
                i <= self.fields.len(),
                fields@.len() == i,
                forall|k: int| 0 <= k < i ==> fields@[k]@ == self.fields@[k]@,
            decreases self.fields.len() - i,
        {
            fields.push(self.fields[i].clone());
            i += 1;
        }
        assert(field_views(fields@) =~= field_views(self.fields@));
        Model { id: self.id, name: self.name.clone(), fields }
    }
}

impl Model {
    /// The model has at least one field and no two of its fields share a
    /// name.
    pub open spec fn wf(&self) -> bool {
        valid_fields(self@.fields)
    }

    /// Makes a model from its parts.
    ///
    /// A model without fields is refused. So is one in which a name occurs
    /// twice; the error then names the first field whose name stood earlier
    /// in the list.
    pub fn new(id: u64, name: String, fields: Vec<Field>) -> (r: Result<Model, AnkiError>)
        ensures
            r is Ok <==> valid_fields(field_views(fields@)),
            r matches Ok(m) ==> m.wf() && m@ == (ModelView {
                id,
                name: name@,
                fields: field_views(fields@),
            }),
            r matches Err(e) ==> if fields@.len() == 0 {
                e@ == AnkiErrorView::ValidationError("Model must have at least one field"@)
            } else {
                exists|j: int|
                    is_first_repeat(field_names(field_views(fields@)), j) && e@
                        == AnkiErrorView::ValidationError(
                        "Duplicate field name: "@ + field_names(field_views(fields@))[j],
                    )
            },
    {
        if fields.len() == 0 {
            return Err(AnkiError::validation("Model must have at least one field"));
        }
        let ghost names = field_names(field_views(fields@));
        let mut j: usize = 0;
        while j < fields.len()
            invariant
                j <= fields.len(),
                names == field_names(field_views(fields@)),
                names.take(j as int).no_duplicates(),
            decreases fields.len() - j,
        {
            let mut i: usize = 0;
            while i < j
                invariant
                    i <= j < fields.len(),
                    names == field_names(field_views(fields@)),
                    names.take(j as int).no_duplicates(),
                    forall|k: int| 0 <= k < i ==> names[k] != names[j as int],
                decreases j - i,
            {
                if str_eq(fields[i].name(), fields[j].name()) {
                    let mut text = String::from_str("Duplicate field name: ");
                    text.append(fields[j].name());
                    proof {
                        assert(names.take(j as int)[i as int] == names[j as int]);
                        assert(is_first_repeat(names, j as int));
                        assert(!names.no_duplicates());
                    }
                    return Err(AnkiError::ValidationError(text));
                }
                i += 1;
            }
            proof {
                assert(names.take(j + 1) =~= names.take(j as int).push(names[j as int]));
            }
            j += 1;
        }
        proof {
            assert(names.take(names.len() as int) == names);
        }
        Ok(Model { id: ModelId(id), name, fields })
    }

    /// The identifier of the model.
    pub fn id(&self) -> (r: ModelId)
        ensures
            r.0 == self@.id,
    {
        self.id
    }

    /// The name of the model.
    pub fn name(&self) -> (r: &str)
        ensures
            r@ == self@.name,
    {
        self.name.as_str()
    }

    /// The fields of the model, in their order.
    pub fn fields(&self) -> (r: &[Field])
        ensures
            field_views(r@) == self@.fields,
    {
        self.fields.as_slice()
    }

    /// The field with the given name.
    pub fn get_field(&self, name: &str) -> (r: Option<&Field>)
        ensures
            r is Some <==> self@.has_field(name@),
            r matches Some(f) ==> exists|i: int|
                is_first_named(self@.fields, name@, i) && f@ == self@.fields[i],
    {
        let mut i: usize = 0;
        while i < self.fields.len()
            invariant
                i <= self.fields.len(),
                forall|k: int| 0 <= k < i ==> self@.fields[k].name != name@,
            decreases self.fields.len() - i,
        {
            if str_eq(self.fields[i].name(), name) {
                proof {
                    assert(is_first_named(self@.fields, name@, i as int));
                    assert(field_names(self@.fields)[i as int] == name@);
                }
                return Some(&self.fields[i]);
            }
            i += 1;
        }
        proof {
            assert(!self@.has_field(name@)) by {
                if self@.has_field(name@) {
                    let k = choose|k: int|
                        0 <= k < field_names(self@.fields).len() && field_names(self@.fields)[k]
                            == name@;
                    assert(self@.fields[k].name == name@);
                }
            }
        }
        None
    }

    /// A handle on the field with the given name, which records that the
    /// field belongs to this model.
    pub fn field_ref(&self, name: &str) -> (r: Option<FieldRef<'_>>)
        ensures
            r is Some <==> self@.has_field(name@),
            r matches Some(h) ==> h.wf() && h@.model == self@ && h@.field.name == name@,
    {
        match self.get_field(name) {
            Some(field) => {
                let h = FieldRef { model: self, field };
                proof {
                    let i = choose|i: int|
                        is_first_named(self@.fields, name@, i) && field@ == self@.fields[i];
                    assert(self@.fields[i] == h@.field);
                }
                Some(h)
            },
            None => None,
        }
    }

    /// The first field whose name suggests the question side.
    pub fn front_field(&self) -> (r: Option<&Field>)
        ensures
            r is Some <==> exists|i: int| is_first_front(self@.fields, i),
            r matches Some(f) ==> exists|i: int|
                is_first_front(self@.fields, i) && f@ == self@.fields[i],
    {
        let mut i: usize = 0;
        while i < self.fields.len()
            invariant
                i <= self.fields.len(),
                forall|k: int| 0 <= k < i ==> !self@.fields[k].is_front(),
            decreases self.fields.len() - i,
        {
            if self.fields[i].is_front() {
                assert(is_first_front(self@.fields, i as int));
                return Some(&self.fields[i]);
            }
            i += 1;
        }
        None
    }

    /// The first field whose name suggests the answer side.
    pub fn back_field(&self) -> (r: Option<&Field>)
        ensures
            r is Some <==> exists|i: int| is_first_back(self@.fields, i),
            r matches Some(f) ==> exists|i: int|
                is_first_back(self@.fields, i) && f@ == self@.fields[i],
    {
        let mut i: usize = 0;
        while i < self.fields.len()
            invariant
                i <= self.fields.len(),
                forall|k: int| 0 <= k < i ==> !self@.fields[k].is_back(),
            decreases self.fields.len() - i,
        {
            if self.fields[i].is_back() {
                assert(is_first_back(self@.fields, i as int));
                return Some(&self.fields[i]);
            }
            i += 1;
        }
        None
    }
}

/// A field together with the model it belongs to.
#[derive(Debug, Clone, Copy, PartialEq, Eq, Hash)]
pub struct FieldRef<'a> {
    model: &'a Model,
    field: &'a Field,
}

/// What a [`FieldRef`] is.
pub struct FieldRefView {
    pub model: ModelView,
    pub field: FieldView,
}

impl<'a> View for FieldRef<'a> {
    type V = FieldRefView;

    closed spec fn view(&self) -> FieldRefView {
        FieldRefView { model: self.model@, field: self.field@ }
    }
}

impl<'a> FieldRef<'a> {
    /// The field is one of the model's fields.
    pub open spec fn wf(&self) -> bool {
        self@.model.fields.contains(self@.field)
    }

    /// The name of the field.
    pub fn name(&self) -> (r: &str)
        ensures
            r@ == self@.field.name,
    {
        self.field.name()
    }

    /// The model that the field belongs to.
    pub fn model(&self) -> (r: &'a Model)
        ensures
            r@ == self@.model,
    {
        self.model
    }

    /// The field itself.
    pub fn field(&self) -> (r: &'a Field)
        ensures
            r@ == self@.field,
    {
        self.field
    }
}

/// Why a list of fields makes no model.
#[derive(Debug, Clone, PartialEq, Eq)]
pub enum ModelError {
    /// There is no field.
    NoFields,
    /// The name occurs twice.
    DuplicateFieldName(String),
}

/// What a [`ModelError`] is, with a text in place of the string.
pub enum ModelErrorView {
    NoFields,
    DuplicateFieldName(Seq<char>),
}

impl View for ModelError {
    type V = ModelErrorView;

    open spec fn view(&self) -> ModelErrorView {
        match self {
            ModelError::NoFields => ModelErrorView::NoFields,
            ModelError::DuplicateFieldName(s) => ModelErrorView::DuplicateFieldName(s@),
        }
    }
}

impl ModelErrorView {
    /// The sentence that describes the error.
    pub open spec fn message(self) -> Seq<char> {
        match self {
            ModelErrorView::NoFields => "Model must have at least one field"@,
            ModelErrorView::DuplicateFieldName(s) => "Duplicate field name: "@ + s,
        }
    }
}

impl ModelError {
    /// The sentence that describes the error.
    pub fn message(&self) -> (r: String)
        ensures
            r@ == self@.message(),
    {
        match self {
            ModelError::NoFields => String::from_str("Model must have at least one field"),
            ModelError::DuplicateFieldName(s) => {
                let mut r = String::from_str("Duplicate field name: ");
                r.append(s.as_str());
                r
            },
        }
    }
}

/// A field that a model hands out by name belongs to the model, and a model
/// has no second field of that name.
pub proof fn lemma_field_of_model_is_unique(fields: Seq<FieldView>, i: int, j: int)
    requires
        valid_fields(fields),
        0 <= i < fields.len(),
        0 <= j < fields.len(),
        fields[i].name == fields[j].name,
    ensures
        i == j,
{
    assert(field_names(fields)[i] == field_names(fields)[j]);
}

/// Fields without a first member, or with a name that occurs twice, make no
/// model.
pub proof fn lemma_invalid_fields(fields: Seq<FieldView>, i: int, j: int)
    requires
        fields.len() == 0 || (0 <= i < j < fields.len() && fields[i].name == fields[j].name),
    ensures
        !valid_fields(fields),
{
    if fields.len() > 0 {
        assert(field_names(fields)[i] == field_names(fields)[j]);
    }
}

} // verus!
