//! The client for models.

use crate::client::cards::{note_ids_from, reads_note_ids, sends_note_query};
use crate::client::decks::owned_strings;
use crate::client::request::{
    CardTemplate, CreateModelParams, FindModelsByIdParams, FindNotesParams, ModelDetails,
    ModelFieldNamesParams, ModelStylingParams, ModelTemplatesParams, Params, Reply, ReplyKind,
    UpdateModelStylingParams,
};
use crate::error::{AnkiError, AnkiErrorView};
use crate::http::{
    expect_models, expect_names_and_ids, expect_nothing, expect_number, expect_numbers,
    expect_text, expect_texts, reads_nothing, reads_text, reads_texts, unexpected_shape,
    RequestSender,
};
use crate::models::model::{
    field_names, field_views, is_first_repeat, makes_model, valid_fields, Field, FieldView, Model,
    ModelId, ModelView,
};
use crate::models::note::NoteId;
use crate::text::{decimal, push_decimal, str_eq, texts};
use vstd::prelude::*;

verus! {

/// One field for every name, each at the place at which its name stands.
pub open spec fn numbered_fields(names: Seq<Seq<char>>) -> Seq<FieldView> {
    Seq::new(names.len(), |i: int| FieldView { name: names[i], ord: i as usize })
}

/// The fields that the service reported, each with the name and the place
/// that the service gave it.
pub open spec fn detail_fields(flds: Seq<crate::client::request::Field>) -> Seq<FieldView> {
    flds.map_values(
        |f: crate::client::request::Field| FieldView { name: f.name@, ord: f.ord as usize },
    )
}

/// The views of a sequence of models.
pub open spec fn model_views(v: Seq<Model>) -> Seq<ModelView> {
    v.map_values(|m: Model| m@)
}

/// `i` is the first place in `models` that holds a model named `name`.
pub open spec fn is_first_model_named(models: Seq<ModelView>, name: Seq<char>, i: int) -> bool {
    0 <= i < models.len() && models[i].name == name && forall|k: int|
        0 <= k < i ==> models[k].name != name
}

/// A card template as a name with the texts of its two sides.
pub type TemplateView = (Seq<char>, Seq<char>, Seq<char>);

/// The names of a list of templates.
pub open spec fn template_names(list: Seq<TemplateView>) -> Seq<Seq<char>> {
    list.map_values(|t: TemplateView| t.0)
}

/// `list` with the template `t`: in the place of the template of that name
/// where there is one, at the end where the name is new.
pub open spec fn with_template(list: Seq<TemplateView>, t: TemplateView) -> Seq<TemplateView> {
    if template_names(list).contains(t.0) {
        list.update(template_names(list).index_of(t.0), t)
    } else {
        list.push(t)
    }
}

/// The templates by name: of two templates with one name the later one
/// stays, in the place of the earlier.
pub open spec fn templates_by_name(templates: Seq<TemplateView>) -> Seq<TemplateView>
    decreases templates.len(),
{
    if templates.len() == 0 {
        Seq::empty()
    } else {
        with_template(templates_by_name(templates.drop_last()), templates.last())
    }
}

/// The views of templates given as string slices.
pub open spec fn given_templates(templates: Seq<(&str, &str, &str)>) -> Seq<TemplateView> {
    templates.map_values(|t: (&str, &str, &str)| (t.0@, t.1@, t.2@))
}

/// The views of templates as they are sent.
pub open spec fn sent_templates(templates: Seq<(String, CardTemplate)>) -> Seq<TemplateView> {
    templates.map_values(|t: (String, CardTemplate)| (t.0@, t.1.front@, t.1.back@))
}

/// The views of a slice of string slices.
pub open spec fn slice_texts(items: Seq<&str>) -> Seq<Seq<char>> {
    items.map_values(|s: &str| s@)
}

/// `r` is the model that the first of `details` describes: none where
/// `details` is empty, and otherwise what making a model of its
/// identifier, its name and its fields gives.
pub open spec fn made_from_details(
    details: Seq<ModelDetails>,
    r: Result<Option<Model>, AnkiError>,
) -> bool {
    if details.len() == 0 {
        r matches Ok(None)
    } else {
        match r {
            Ok(Some(m)) => makes_model(
                details[0].id,
                details[0].name@,
                detail_fields(details[0].flds@),
                Ok(m),
            ),
            Ok(None) => false,
            Err(e) => makes_model(
                details[0].id,
                details[0].name@,
                detail_fields(details[0].flds@),
                Err(e),
            ),
        }
    }
}

/// `found` is the first of `models` with the name `name`, or nothing where
/// none has that name.
pub open spec fn picked_model(models: Seq<Model>, name: Seq<char>, found: Option<Model>) -> bool {
    &&& found is Some <==> exists|i: int| is_first_model_named(model_views(models), name, i)
    &&& found matches Some(m) ==> exists|i: int|
        is_first_model_named(model_views(models), name, i) && m@ == models[i]@
}

/// What is sent is the name `name` of the model whose field names are
/// asked for.
pub open spec fn sends_model_name(params: Option<Params>, name: Seq<char>) -> bool {
    match params {
        Some(Params::ModelFieldNames(p)) => p.model_name@ == name,
        _ => false,
    }
}

/// What is sent is the name `name` of the model whose templates are asked
/// for.
pub open spec fn sends_templates_of(params: Option<Params>, name: Seq<char>) -> bool {
    match params {
        Some(Params::ModelTemplates(p)) => p.model_name@ == name,
        _ => false,
    }
}

/// What is sent is the name `name` of the model whose styling is asked for.
pub open spec fn sends_styling_of(params: Option<Params>, name: Seq<char>) -> bool {
    match params {
        Some(Params::ModelStyling(p)) => p.model_name@ == name,
        _ => false,
    }
}

/// What is sent is the styling `css` for the model named `name`.
pub open spec fn sends_new_styling(
    params: Option<Params>,
    name: Seq<char>,
    css: Seq<char>,
) -> bool {
    match params {
        Some(Params::UpdateModelStyling(p)) => p.model@ == name && p.css@ == css,
        _ => false,
    }
}

/// What is sent is a model to create: its name, the names of its fields in
/// their order, its styling and its templates by name.
pub open spec fn sends_new_model(
    params: Option<Params>,
    model_name: Seq<char>,
    fields: Seq<Seq<char>>,
    css: Seq<char>,
    templates: Seq<TemplateView>,
) -> bool {
    match params {
        Some(Params::CreateModel(p)) => {
            &&& p.model_name@ == model_name
            &&& texts(p.in_order_fields@) == fields
            &&& p.css@ == css
            &&& sent_templates(p.card_templates@) == templates
        },
        _ => false,
    }
}

/// `r` is what an answer gives that is read as the identifier of a model.
pub open spec fn reads_model_id(
    answer: Result<Reply, AnkiError>,
    r: Result<ModelId, AnkiError>,
) -> bool {
    match answer {
        Ok(Reply::Number(n)) => r matches Ok(id) && id == ModelId(n),
        Ok(_) => r matches Err(e) && e@ == unexpected_shape(),
        Err(err) => r matches Err(e) && e == err,
    }
}

/// What is sent are the identifiers `ids` of the models that are asked
/// for.
pub open spec fn sends_model_ids(params: Option<Params>, ids: Seq<u64>) -> bool {
    match params {
        Some(Params::FindModelsById(p)) => p.model_ids@ == ids,
        _ => false,
    }
}

/// `r` is what an answer gives that is read as one model: the model that
/// the first of the listed models describes.
pub open spec fn reads_model(
    answer: Result<Reply, AnkiError>,
    r: Result<Option<Model>, AnkiError>,
) -> bool {
    match answer {
        Ok(Reply::Models(details)) => made_from_details(details@, r),
        Ok(_) => r matches Err(e) && e@ == unexpected_shape(),
        Err(err) => r matches Err(e) && e == err,
    }
}

/// One field for every name, each at the place at which its name stands.
pub fn fields_from_names(names: &Vec<String>) -> (r: Vec<Field>)
    ensures
        field_views(r@) == numbered_fields(texts(names@)),
{
    let mut r: Vec<Field> = Vec::new();
    let mut i: usize = 0;
    while i < names.len()
        invariant
            i <= names.len(),
            r@.len() == i,
            forall|k: int|
                0 <= k < i ==> r@[k]@ == (FieldView { name: names@[k]@, ord: k as usize }),
        decreases names.len() - i,
    {
        r.push(Field::new(names[i].clone(), i));
        i += 1;
    }
    assert(field_views(r@) =~= numbered_fields(texts(names@)));
    r
}

/// The model with the given identifier and name whose fields have the given
/// names, in that order. It is made or refused as [`Model::new`] says.
pub fn model_from_names(id: u64, name: String, names: &Vec<String>) -> (r: Result<
    Model,
    AnkiError,
>)
    ensures
        makes_model(id, name@, numbered_fields(texts(names@)), r),
        r is Ok <==> valid_fields(numbered_fields(texts(names@))),
        r matches Ok(m) ==> m.wf() && m@ == (ModelView {
            id,
            name: name@,
            fields: numbered_fields(texts(names@)),
        }),
        r matches Err(e) ==> if names@.len() == 0 {
            e@ == AnkiErrorView::ValidationError("Model must have at least one field"@)
        } else {
            exists|j: int|
                is_first_repeat(field_names(numbered_fields(texts(names@))), j) && e@
                    == AnkiErrorView::ValidationError(
                    "Duplicate field name: "@ + field_names(numbered_fields(texts(names@)))[j],
                )
        },
{
    Model::new(id, name, fields_from_names(names))
}

/// The fields that the service reported, each as a [`Field`].
pub fn fields_from_details(flds: &Vec<crate::client::request::Field>) -> (r: Vec<Field>)
    ensures
        field_views(r@) == detail_fields(flds@),
{
    let mut r: Vec<Field> = Vec::new();
    let mut i: usize = 0;
    while i < flds.len()
        invariant
            i <= flds.len(),
            r@.len() == i,
            forall|k: int| 0 <= k < i ==> r@[k]@ == detail_fields(flds@)[k],
        decreases flds.len() - i,
    {
        let ord = #[verifier::truncate]
        (flds[i].ord as usize);
        r.push(Field::new(flds[i].name.clone(), ord));
        i += 1;
    }
    assert(field_views(r@) =~= detail_fields(flds@));
    r
}

/// The model that the first of `details` describes; none where `details`
/// is empty. The model is made or refused as [`Model::new`] says.
pub fn model_from_details(details: &Vec<ModelDetails>) -> (r: Result<Option<Model>, AnkiError>)
    ensures
        made_from_details(details@, r),
        details@.len() == 0 ==> r matches Ok(None),
        details@.len() > 0 ==> (r is Ok <==> valid_fields(detail_fields(details@[0].flds@))),
        r matches Ok(Some(m)) ==> details@.len() > 0 && m.wf() && m@ == (ModelView {
            id: details@[0].id,
            name: details@[0].name@,
            fields: detail_fields(details@[0].flds@),
        }),
        r matches Ok(None) ==> details@.len() == 0,
{
    if details.len() == 0 {
        return Ok(None);
    }
    let detail = &details[0];
    match Model::new(detail.id, detail.name.clone(), fields_from_details(&detail.flds)) {
        Ok(model) => Ok(Some(model)),
        Err(e) => Err(e),
    }
}

/// The first of `models` with the name `name`.
pub fn find_model_by_name(models: &Vec<Model>, name: &str) -> (r: Option<Model>)
    ensures
        r is Some <==> exists|i: int| is_first_model_named(model_views(models@), name@, i),
        r matches Some(m) ==> exists|i: int|
            is_first_model_named(model_views(models@), name@, i) && m@ == models@[i]@,
{
    let mut i: usize = 0;
    while i < models.len()
        invariant
            i <= models.len(),
            forall|k: int| 0 <= k < i ==> model_views(models@)[k].name != name@,
        decreases models.len() - i,
    {
        if str_eq(models[i].name(), name) {
            assert(is_first_model_named(model_views(models@), name@, i as int));
            return Some(models[i].clone());
        }
        i += 1;
    }
    None
}

/// The model that was found, or the failure that says that no model has the
/// identifier.
pub fn model_or_missing(found: Option<Model>, id: ModelId) -> (r: Result<Model, AnkiError>)
    ensures
        match found {
            Some(m) => r matches Ok(got) && got == m,
            None => r matches Err(e) && e@ == AnkiErrorView::ValidationError(
                "Model with ID "@ + decimal(id.0 as nat) + " not found"@,
            ),
        },
{
    match found {
        Some(m) => Ok(m),
        None => {
            let mut text = String::from_str("Model with ID ");
            push_decimal(&mut text, id.0);
            text.append(" not found");
            Err(AnkiError::ValidationError(text))
        },
    }
}

/// The search for the notes of a model.
pub fn notes_using_model_params(model: &Model) -> (r: FindNotesParams)
    ensures
        r.query@ == "note:"@ + model@.name,
{
    let mut query = String::from_str("note:");
    query.append(model.name());
    FindNotesParams { query }
}

/// Puts a template into a list by name: in the place of the template of
/// that name where there is one, at the end where the name is new.
fn insert_template(list: &mut Vec<(String, CardTemplate)>, name: &str, front: &str, back: &str)
    requires
        template_names(sent_templates(old(list)@)).no_duplicates(),
    ensures
        template_names(sent_templates(final(list)@)).no_duplicates(),
        sent_templates(final(list)@) == with_template(
            sent_templates(old(list)@),
            (name@, front@, back@),
        ),
{
    let ghost before = sent_templates(list@);
    let ghost names = template_names(before);
    let template = CardTemplate { front: String::from_str(front), back: String::from_str(back) };
    let mut i: usize = 0;
    while i < list.len()
        invariant
            i <= list.len(),
            list@ == old(list)@,
            before == sent_templates(list@),
            names == template_names(before),
            names.no_duplicates(),
            template.front@ == front@,
            template.back@ == back@,
            forall|k: int| 0 <= k < i ==> names[k] != name@,
        decreases list.len() - i,
    {
        if str_eq(list[i].0.as_str(), name) {
            proof {
                assert(names[i as int] == name@);
                names.index_of_first_ensures(name@);
            }
            list.set(i, (String::from_str(name), template));
            proof {
                let after = sent_templates(list@);
                assert(after =~= before.update(i as int, (name@, front@, back@)));
                assert(template_names(after) =~= names);
            }
            return ;
        }
        i += 1;
    }
    list.push((String::from_str(name), template));
    proof {
        let after = sent_templates(list@);
        assert(after =~= before.push((name@, front@, back@)));
        assert(template_names(after) =~= names.push(name@));
    }
}

/// What is sent to create a model.
///
/// A model without a name is refused, then one without fields, then one
/// without templates. The templates are sent by name, so of two templates
/// with one name only the later is sent.
pub fn create_model_params(
    model_name: &str,
    fields: &[&str],
    css: &str,
    templates: &[(&str, &str, &str)],
) -> (r: Result<CreateModelParams, AnkiError>)
    ensures
        r is Ok <==> model_name@.len() > 0 && fields@.len() > 0 && templates@.len() > 0,
        r matches Ok(p) ==> {
            &&& p.model_name@ == model_name@
            &&& texts(p.in_order_fields@) == slice_texts(fields@)
            &&& p.css@ == css@
            &&& sent_templates(p.card_templates@) == templates_by_name(
                given_templates(templates@),
            )
        },
        r matches Err(e) ==> e@ == AnkiErrorView::ValidationError(
            if model_name@.len() == 0 {
                "Model name cannot be empty"@
            } else if fields@.len() == 0 {
                "Model must have at least one field"@
            } else {
                "Model must have at least one template"@
            },
        ),
{
    if model_name.is_empty() {
        return Err(AnkiError::validation("Model name cannot be empty"));
    }
    if fields.len() == 0 {
        return Err(AnkiError::validation("Model must have at least one field"));
    }
    if templates.len() == 0 {
        return Err(AnkiError::validation("Model must have at least one template"));
    }
    let mut card_templates: Vec<(String, CardTemplate)> = Vec::new();
    assert(sent_templates(card_templates@) =~= Seq::<TemplateView>::empty());
    let mut i: usize = 0;
    while i < templates.len()
        invariant
            i <= templates.len(),
            template_names(sent_templates(card_templates@)).no_duplicates(),
            sent_templates(card_templates@) == templates_by_name(
                given_templates(templates@).take(i as int),
            ),
        decreases templates.len() - i,
    {
        proof {
            let t = given_templates(templates@).take(i + 1);
            assert(t.drop_last() == given_templates(templates@).take(i as int));
            assert(t.last() == (templates@[i as int].0@, templates@[i as int].1@, templates@[i as int].2@));
        }
        insert_template(&mut card_templates, templates[i].0, templates[i].1, templates[i].2);
        i += 1;
    }
    proof {
        assert(given_templates(templates@).take(templates@.len() as int) == given_templates(
            templates@,
        ));
    }
    let in_order_fields = owned_strings(fields);
    assert(texts(in_order_fields@) =~= slice_texts(fields@));
    Ok(
        CreateModelParams {
            model_name: String::from_str(model_name),
            in_order_fields,
            css: String::from_str(css),
            card_templates,
        },
    )
}

/// Copies fields.
pub fn clone_fields(fields: &[Field]) -> (r: Vec<Field>)
    ensures
        field_views(r@) == field_views(fields@),
{
    let mut r: Vec<Field> = Vec::new();
    let mut i: usize = 0;
    while i < fields.len()
        invariant
            i <= fields.len(),
            r@.len() == i,
            forall|k: int| 0 <= k < i ==> r@[k]@ == fields@[k]@,
        decreases fields.len() - i,
    {
        r.push(fields[i].clone());
        i += 1;
    }
    assert(field_views(r@) =~= field_views(fields@));
    r
}

/// The client for models.
pub struct ModelClient<S: RequestSender> {
    sender: S,
}

impl<S: RequestSender> ModelClient<S> {
    /// The sender through which the client talks.
    pub closed spec fn sender(self) -> S {
        self.sender
    }

    /// The client's sender hands back `answer` for the action named
    /// `action` with `params`, asked for in the shape `expect`.
    pub open spec fn asked(
        &self,
        action: Seq<char>,
        params: Option<Params>,
        expect: ReplyKind,
        answer: Result<Reply, AnkiError>,
    ) -> bool {
        self.sender().answers(action, params, expect, answer)
    }

    /// `r` is what the client reads as the field names of the model named
    /// `model_name` from what its sender answers when it is asked for them.
    pub open spec fn got_field_names(
        &self,
        model_name: Seq<char>,
        r: Result<Vec<String>, AnkiError>,
    ) -> bool {
        exists|params: Option<Params>, answer: Result<Reply, AnkiError>|
            #[trigger] self.asked("modelFieldNames"@, params, ReplyKind::Texts, answer)
                && sends_model_name(params, model_name) && reads_texts(answer, r)
    }

    /// `r` is what the client makes of one listed model, a name with an
    /// identifier: its field names are fetched, and the model is made of
    /// them. A failure to fetch them is handed on.
    pub open spec fn made_one(&self, pair: (String, u64), r: Result<Model, AnkiError>) -> bool {
        exists|names: Result<Vec<String>, AnkiError>|
            #[trigger] self.got_field_names(pair.0@, names) && match names {
                Ok(ns) => makes_model(pair.1, pair.0@, numbered_fields(texts(ns@)), r),
                Err(err) => r matches Err(e) && e == err,
            }
    }

    /// `r` is what the client makes of the listed models `pairs`: one model
    /// for each, in the same order, or the first failure, which ends the
    /// work.
    pub open spec fn made_all(
        &self,
        pairs: Seq<(String, u64)>,
        r: Result<Vec<Model>, AnkiError>,
    ) -> bool {
        match r {
            Ok(models) => models@.len() == pairs.len() && forall|i: int|
                0 <= i < pairs.len() ==> self.made_one(#[trigger] pairs[i], Ok(models@[i])),
            Err(e) => exists|i: int|
                0 <= i < pairs.len() && self.made_one(#[trigger] pairs[i], Err(e)) && forall|k: int|
                    0 <= k < i ==> self.made_some(#[trigger] pairs[k]),
        }
    }

    /// The client makes a model of the listed model `pair`.
    pub open spec fn made_some(&self, pair: (String, u64)) -> bool {
        exists|m: Model| self.made_one(pair, Ok(m))
    }

    /// `r` is what the client reads as the models of the collection: the
    /// sender is asked for the names and identifiers, and the models are
    /// made of what it lists.
    pub open spec fn got_all(&self, r: Result<Vec<Model>, AnkiError>) -> bool {
        exists|answer: Result<Reply, AnkiError>|
            #[trigger] self.asked("modelNamesAndIds"@, None, ReplyKind::NamesAndIds, answer)
                && match answer {
                Ok(Reply::NamesAndIds(pairs)) => self.made_all(pairs@, r),
                Ok(_) => r matches Err(e) && e@ == unexpected_shape(),
                Err(err) => r matches Err(e) && e == err,
            }
    }

    /// `r` is what the client reads as the model with the identifier `id`
    /// from what its sender answers when it is asked for it.
    pub open spec fn got_by_id(&self, id: u64, r: Result<Option<Model>, AnkiError>) -> bool {
        exists|params: Option<Params>, answer: Result<Reply, AnkiError>|
            #[trigger] self.asked("findModelsById"@, params, ReplyKind::Models, answer)
                && sends_model_ids(params, seq![id]) && reads_model(answer, r)
    }

    /// The client that talks through `sender`.
    pub fn new(sender: S) -> (r: ModelClient<S>)
        ensures
            r.sender() == sender,
    {
        ModelClient { sender }
    }

    /// Hands a request to the sender and gives what it answers.
    fn ask(&self, action: &str, params: Option<Params>, expect: ReplyKind) -> (r: Result<
        Reply,
        AnkiError,
    >)
        ensures
            self.asked(action@, params, expect, r),
    {
        self.sender.send(action, params, expect)
    }

    /// All models of the collection: the sender is asked for
    /// `modelNamesAndIds` without parameters; for every name that it
    /// answers, in the order of the answer, the field names are fetched as
    /// [`ModelClient::get_fields_for_name`] says and the model is made of
    /// the identifier, the name and those fields. The first failure ends
    /// the work and is the result.
    #[verifier::loop_isolation(false)]
    pub fn get_all(&self) -> (r: Result<Vec<Model>, AnkiError>)
        ensures
            self.got_all(r),
            r matches Ok(models) ==> forall|i: int|
                0 <= i < models@.len() ==> (#[trigger] models@[i]).wf(),
    {
        let reply = self.ask("modelNamesAndIds", None, ReplyKind::NamesAndIds);
        let pairs = expect_names_and_ids(reply)?;
        let mut models: Vec<Model> = Vec::new();
        let mut i: usize = 0;
        while i < pairs.len()
            invariant
                i <= pairs.len(),
                models@.len() == i,
                forall|k: int| 0 <= k < models@.len() ==> (#[trigger] models@[k]).wf(),
                forall|k: int| 0 <= k < i ==> self.made_one(#[trigger] pairs@[k], Ok(models@[k])),
                forall|k: int| 0 <= k < i ==> self.made_some(#[trigger] pairs@[k]),
            decreases pairs.len() - i,
        {
            let names = self.get_fields_for_name(pairs[i].0.as_str());
            let names = match names {
                Ok(names) => names,
                Err(e) => {
                    assert(self.made_one(pairs@[i as int], Err(e)));
                    return Err(e);
                },
            };
            let made = model_from_names(pairs[i].1, pairs[i].0.clone(), &names);
            assert(self.made_one(pairs@[i as int], made)) by {
                assert(self.got_field_names(pairs@[i as int].0@, Ok(names)));
            }
            let model = match made {
                Ok(model) => model,
                Err(e) => {
                    return Err(e);
                },
            };
            assert(self.made_some(pairs@[i as int])) by {
                assert(self.made_one(pairs@[i as int], Ok(model)));
            }
            let ghost before = models@;
            models.push(model);
            assert forall|k: int| 0 <= k < i + 1 implies self.made_one(
                #[trigger] pairs@[k],
                Ok(models@[k]),
            ) by {
                if k < i {
                    assert(models@[k] == before[k]);
                }
            }
            i += 1;
        }
        Ok(models)
    }

    /// The model with the given name, if there is one: the models are
    /// fetched as [`ModelClient::get_all`] says, and the first of them with
    /// that name is given. A failure to fetch them is handed on.
    pub fn get_by_name(&self, name: &str) -> (r: Result<Option<Model>, AnkiError>)
        ensures
            r matches Ok(Some(m)) ==> m.wf() && m@.name == name@,
            exists|all: Result<Vec<Model>, AnkiError>|
                #[trigger] self.got_all(all) && match all {
                    Ok(models) => r matches Ok(found) && picked_model(models@, name@, found),
                    Err(err) => r matches Err(e) && e == err,
                },
    {
        let all = self.get_all();
        let models = all?;
        let found = find_model_by_name(&models, name);
        proof {
            if found is Some {
                let m = found->0;
                let i = choose|i: int|
                    is_first_model_named(model_views(models@), name@, i) && m@ == models@[i]@;
                assert(models@[i].wf());
            }
        }
        Ok(found)
    }

    /// The model with the given identifier, if there is one: the sender is
    /// asked for `findModelsById` with that one identifier, and the first
    /// model that it answers is made as [`model_from_details`] says.
    pub fn get_by_id(&self, id: ModelId) -> (r: Result<Option<Model>, AnkiError>)
        ensures
            self.got_by_id(id.0, r),
            r matches Ok(Some(m)) ==> m.wf(),
    {
        let mut model_ids: Vec<u64> = Vec::new();
        model_ids.push(id.0);
        assert(model_ids@ =~= seq![id.0]);
        let params = FindModelsByIdParams { model_ids };
        let reply = self.ask(
            "findModelsById",
            Some(Params::FindModelsById(params)),
            ReplyKind::Models,
        );
        let details = expect_models(reply)?;
        model_from_details(&details)
    }

    /// The fields of `model`. Nothing is sent.
    pub fn get_fields(&self, model: &Model) -> (r: Result<Vec<Field>, AnkiError>)
        ensures
            r matches Ok(fields) && field_views(fields@) == model@.fields,
    {
        Ok(clone_fields(model.fields()))
    }

    /// The field names of the model named `model_name`: the sender is
    /// asked for `modelFieldNames` with that name, and the texts that it
    /// answers are given as they came.
    pub fn get_fields_for_name(&self, model_name: &str) -> (r: Result<Vec<String>, AnkiError>)
        ensures
            self.got_field_names(model_name@, r),
    {
        let params = ModelFieldNamesParams { model_name: String::from_str(model_name) };
        let reply = self.ask(
            "modelFieldNames",
            Some(Params::ModelFieldNames(params)),
            ReplyKind::Texts,
        );
        expect_texts(reply)
    }

    /// The field names of the model with the given identifier: the model
    /// is fetched as [`ModelClient::get_by_id`] says, and its field names
    /// as [`ModelClient::get_fields_for_name`] says of its name. Where
    /// there is no such model the failure says so, and a failure to fetch
    /// the model is handed on.
    pub fn get_fields_for_id(&self, model_id: ModelId) -> (r: Result<Vec<String>, AnkiError>)
        ensures
            exists|found: Result<Option<Model>, AnkiError>|
                #[trigger] self.got_by_id(model_id.0, found) && match found {
                    Ok(Some(m)) => self.got_field_names(m@.name, r),
                    Ok(None) => r matches Err(e) && e@ == AnkiErrorView::ValidationError(
                        "Model with ID "@ + decimal(model_id.0 as nat) + " not found"@,
                    ),
                    Err(err) => r matches Err(e) && e == err,
                },
    {
        let fetched = self.get_by_id(model_id);
        let found = fetched?;
        let model = model_or_missing(found, model_id)?;
        self.get_fields_for_name(model.name())
    }

    /// The names of the card templates of `model`: the sender is asked for
    /// `modelTemplates` with the name of the model, and the texts that it
    /// answers are given as they came.
    pub fn get_template_names(&self, model: &Model) -> (r: Result<Vec<String>, AnkiError>)
        ensures
            exists|params: Option<Params>, answer: Result<Reply, AnkiError>|
                #[trigger] self.asked("modelTemplates"@, params, ReplyKind::Texts, answer)
                    && sends_templates_of(params, model@.name) && reads_texts(answer, r),
    {
        let params = ModelTemplatesParams { model_name: String::from_str(model.name()) };
        let reply = self.ask(
            "modelTemplates",
            Some(Params::ModelTemplates(params)),
            ReplyKind::Texts,
        );
        expect_texts(reply)
    }

    /// The styling of `model`: the sender is asked for `modelStyling` with
    /// the name of the model, and the text that it answers is given as it
    /// came.
    pub fn get_styling(&self, model: &Model) -> (r: Result<String, AnkiError>)
        ensures
            exists|params: Option<Params>, answer: Result<Reply, AnkiError>|
                #[trigger] self.asked("modelStyling"@, params, ReplyKind::Text, answer)
                    && sends_styling_of(params, model@.name) && reads_text(answer, r),
    {
        let params = ModelStylingParams { model_name: String::from_str(model.name()) };
        let reply = self.ask("modelStyling", Some(Params::ModelStyling(params)), ReplyKind::Text);
        expect_text(reply)
    }

    /// Creates a model and gives its identifier. A model without a name,
    /// without fields or without templates is refused before anything is
    /// sent; otherwise the sender is asked for `createModel` with what
    /// [`create_model_params`] makes, and the number that it answers is the
    /// identifier.
    pub fn create_model(
        &self,
        model_name: &str,
        fields: &[&str],
        css: &str,
        templates: &[(&str, &str, &str)],
    ) -> (r: Result<ModelId, AnkiError>)
        ensures
            model_name@.len() == 0 ==> (r matches Err(e) && e@ == AnkiErrorView::ValidationError(
                "Model name cannot be empty"@,
            )),
            model_name@.len() > 0 && fields@.len() == 0 ==> (r matches Err(e) && e@
                == AnkiErrorView::ValidationError("Model must have at least one field"@)),
            model_name@.len() > 0 && fields@.len() > 0 && templates@.len() == 0 ==> (r matches Err(
                e,
            ) && e@ == AnkiErrorView::ValidationError("Model must have at least one template"@)),
            model_name@.len() > 0 && fields@.len() > 0 && templates@.len() > 0 ==> exists|
                params: Option<Params>,
                answer: Result<Reply, AnkiError>,
            |
                #[trigger] self.asked("createModel"@, params, ReplyKind::Number, answer)
                    && sends_new_model(
                    params,
                    model_name@,
                    slice_texts(fields@),
                    css@,
                    templates_by_name(given_templates(templates@)),
                ) && reads_model_id(answer, r),
    {
        let params = create_model_params(model_name, fields, css, templates)?;
        let reply = self.ask("createModel", Some(Params::CreateModel(params)), ReplyKind::Number);
        let id = expect_number(reply)?;
        Ok(ModelId(id))
    }

    /// Gives `model` a new styling: the sender is asked for
    /// `updateModelStyling` with the name of the model and the styling, and
    /// succeeds where it answers no result.
    pub fn update_styling(&self, model: &Model, css: &str) -> (r: Result<(), AnkiError>)
        ensures
            exists|params: Option<Params>, answer: Result<Reply, AnkiError>|
                #[trigger] self.asked("updateModelStyling"@, params, ReplyKind::Nothing, answer)
                    && sends_new_styling(params, model@.name, css@) && reads_nothing(answer, r),
    {
        let params = UpdateModelStylingParams {
            model: String::from_str(model.name()),
            css: String::from_str(css),
        };
        let reply = self.ask(
            "updateModelStyling",
            Some(Params::UpdateModelStyling(params)),
            ReplyKind::Nothing,
        );
        expect_nothing(reply)
    }

    /// The notes of `model`: the sender is asked for `findNotes` with the
    /// query `note:` and the name of the model, and the numbers that it
    /// answers are the notes.
    pub fn find_notes_using_model(&self, model: &Model) -> (r: Result<Vec<NoteId>, AnkiError>)
        ensures
            exists|params: Option<Params>, answer: Result<Reply, AnkiError>|
                #[trigger] self.asked("findNotes"@, params, ReplyKind::Numbers, answer)
                    && sends_note_query(params, "note:"@ + model@.name) && reads_note_ids(
                    answer,
                    r,
                ),
    {
        let params = notes_using_model_params(model);
        let reply = self.ask("findNotes", Some(Params::FindNotes(params)), ReplyKind::Numbers);
        let ids = expect_numbers(reply)?;
        Ok(note_ids_from(&ids))
    }
}

} // verus!
