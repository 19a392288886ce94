//! What an answer of the remote service means, and what is checked and made
//! before the card of a model that is known by identifier and name is sent.

use crate::anki_card::{
    populated, AnkiCard, AnkiCardView, AnkiDeck, AnkiField, AnkiFieldView, AnkiModel,
    AnkiModelIdentifier, CardMediaView, MediaType, ModelId, NamedView,
};
use crate::client::cards::sends_browse;
use crate::client::decks::{sends_card_query, sends_new_deck};
use crate::client::models::{sends_model_ids, sends_model_name};
use crate::anki_connect_request::{
    data_of, optional_str, path_of, url_of, AddNoteOptions, AnkiConnectRequest, Media,
    MediaSourceDTO, Note,
};
use crate::anki_search_query::AnkiSearchQuery;
use crate::client::media::{optional_text, sends_file};
use crate::client::request::{
    AddNoteParams, CreateDeckParams, DuplicateScopeDto, FindCardsParams, FindModelsByIdParams,
    GuiBrowseParams, ModelFieldNamesParams, NoteDto, Params, Reply, ReplyKind,
    StoreMediaFileParams,
};
use crate::error::{
    classify, parse_anki_connect_error, AnkiConnectError, AnkiConnectErrorView, AnkiRequestError,
    AnkiRequestErrorView,
};
use crate::parameter_types::{CardsReordering, ColumnIdentifier, DuplicateScope, SortOrder};
use crate::request_sender::AnkiConnectRequestSender;
use crate::text::texts;
use vstd::prelude::*;

verus! {

/// An answer of the remote service: a result, an error message, or neither.
#[derive(Debug)]
pub struct AnkiConnectResponse<T> {
    pub result: Option<T>,
    pub error: Option<String>,
}

/// The error for an answer that holds neither a result nor an error.
pub open spec fn both_null() -> AnkiRequestErrorView {
    AnkiRequestErrorView::AnkiConnectError(
        AnkiConnectErrorView::Other(
            "Both result and error are null. Probably a bug in AnkiConnect"@,
        ),
    )
}

impl<T> AnkiConnectResponse<T> {
    /// What the answer means. An answer with an error is a failure,
    /// classified by its message, whatever result stands beside it. An
    /// answer with a result and no error is that result. An answer with
    /// neither is a failure of its own.
    pub fn into_result(self) -> (r: Result<T, AnkiRequestError>)
        ensures
            self.error matches Some(msg) ==> (r matches Err(e) && e@
                == AnkiRequestErrorView::AnkiConnectError(classify(msg@))),
            self.error is None ==> match self.result {
                Some(v) => r matches Ok(got) && got == v,
                None => r matches Err(e) && e@ == both_null(),
            },
    {
        match self.error {
            Some(msg) => Err(
                AnkiRequestError::AnkiConnectError(parse_anki_connect_error(msg.as_str())),
            ),
            None => match self.result {
                Some(v) => Ok(v),
                None => Err(
                    AnkiRequestError::AnkiConnectError(
                        AnkiConnectError::Other(
                            String::from_str(
                                "Both result and error are null. Probably a bug in AnkiConnect",
                            ),
                        ),
                    ),
                ),
            },
        }
    }
}

/// The views of a sequence of fields.
pub open spec fn field_views(v: Seq<AnkiField>) -> Seq<AnkiFieldView> {
    v.map_values(|f: AnkiField| f@)
}

/// `i` is the first place in `fields` that holds a field that is not among
/// `known`.
pub open spec fn is_first_invalid(
    fields: Seq<AnkiFieldView>,
    known: Seq<AnkiFieldView>,
    i: int,
) -> bool {
    0 <= i < fields.len() && !known.contains(fields[i]) && forall|k: int|
        0 <= k < i ==> known.contains(#[trigger] fields[k])
}

/// Whether `field` is one of `fields`.
fn is_among(fields: &Vec<AnkiField>, field: &AnkiField) -> (r: bool)
    ensures
        r == field_views(fields@).contains(field@),
{
    let mut i: usize = 0;
    while i < fields.len()
        invariant
            i <= fields.len(),
            forall|k: int| 0 <= k < i ==> field_views(fields@)[k] != field@,
        decreases fields.len() - i,
    {
        if fields[i].same_as(field) {
            assert(field_views(fields@)[i as int] == field@);
            return true;
        }
        i += 1;
    }
    false
}

/// Checks that every field in which the card holds a content is one of the
/// fields of its model. The error names the first field that is not, and
/// the model.
pub fn check_fields(anki_card: &AnkiCard, model_field_names: &Vec<AnkiField>) -> (r: Result<
    (),
    AnkiRequestError,
>)
    ensures
        r is Ok <==> forall|i: int|
            0 <= i < anki_card@.fields.len() ==> field_views(model_field_names@).contains(
                #[trigger] populated(anki_card@.fields)[i],
            ),
        r matches Err(e) ==> exists|i: int|
            is_first_invalid(populated(anki_card@.fields), field_views(model_field_names@), i)
                && e@ == AnkiRequestErrorView::InvalidField(
                populated(anki_card@.fields)[i].name,
                anki_card@.model,
            ),
{
    let fields = anki_card.get_populated_fields();
    let ghost views = populated(anki_card@.fields);
    let ghost known = field_views(model_field_names@);
    let mut i: usize = 0;
    while i < fields.len()
        invariant
            i <= fields.len(),
            views == populated(anki_card@.fields),
            known == field_views(model_field_names@),
            crate::anki_card::field_ref_views(fields@) == views,
            forall|k: int| 0 <= k < i ==> known.contains(#[trigger] views[k]),
        decreases fields.len() - i,
    {
        assert(crate::anki_card::field_ref_views(fields@)[i as int] == fields@[i as int]@);
        if !is_among(model_field_names, fields[i]) {
            assert(is_first_invalid(views, known, i as int));
            return Err(
                AnkiRequestError::InvalidField(
                    String::from_str(fields[i].name()),
                    anki_card.get_model_identifier().clone(),
                ),
            );
        }
        i += 1;
    }
    proof {
        assert(crate::anki_card::field_ref_views(fields@).len() == fields@.len());
        assert(views.len() == anki_card@.fields.len());
    }
    Ok(())
}

/// The media of kind `kind` among `media`, in their order.
pub open spec fn of_kind(media: Seq<CardMediaView>, kind: MediaType) -> Seq<CardMediaView>
    decreases media.len(),
{
    if media.len() == 0 {
        Seq::empty()
    } else if media.last().0 == kind {
        of_kind(media.drop_last(), kind).push(media.last())
    } else {
        of_kind(media.drop_last(), kind)
    }
}

/// `dto` says what `m` is: the one part of the source that is given, the
/// file name, and the one field in which the file is shown.
pub open spec fn describes(dto: Media, m: CardMediaView) -> bool {
    &&& dto.media_source.spec_path() == path_of(m.1)
    &&& dto.media_source.spec_url() == url_of(m.1)
    &&& dto.media_source.spec_data() == data_of(m.1)
    &&& dto.filename@ == m.2
    &&& dto.skip_hash is None
    &&& dto.fields@.len() == 1
    &&& dto.fields@[0]@ == m.3.name
}

/// `dtos` say, one by one and in order, what `media` are.
pub open spec fn describe_all(dtos: Seq<Media>, media: Seq<CardMediaView>) -> bool {
    dtos.len() == media.len() && forall|i: int|
        0 <= i < dtos.len() ==> describes(#[trigger] dtos[i], media[i])
}

/// What is sent to add `anki_card` to `deck`: the names of deck and model,
/// the contents by field name and the tags in the order of the card, and
/// the media parted by kind, each kind in the order of the card. How far
/// the search for duplicates reaches is never said.
pub fn note_for_card<'a>(
    deck: &'a AnkiDeck,
    anki_card: &'a AnkiCard,
    allow_duplicate: bool,
    duplicate_scope: Option<DuplicateScope>,
) -> (r: Note<'a>)
    ensures
        r.deck_name@ == deck@.name,
        r.model_name@ == anki_card@.model.name,
        r.fields@.len() == anki_card@.fields.len(),
        forall|i: int|
            0 <= i < r.fields@.len() ==> (#[trigger] r.fields@[i]).0@
                == anki_card@.fields[i].0.name && r.fields@[i].1@ == anki_card@.fields[i].1,
        crate::anki_card::str_views(r.tags@) == anki_card@.tags,
        r.options.allow_duplicate == allow_duplicate,
        r.options.duplicate_scope == duplicate_scope,
        r.options.duplicate_scope_options is None,
        describe_all(r.audio@, of_kind(anki_card@.media, MediaType::Audio)),
        describe_all(r.video@, of_kind(anki_card@.media, MediaType::Video)),
        describe_all(r.picture@, of_kind(anki_card@.media, MediaType::Picture)),
{
    let contents = anki_card.get_fields_with_content();
    let mut fields: Vec<(&'a str, &'a str)> = Vec::new();
    let mut i: usize = 0;
    while i < contents.len()
        invariant
            i <= contents.len(),
            crate::anki_card::content_ref_views(contents@) == anki_card@.fields,
            fields@.len() == i,
            forall|k: int|
                0 <= k < i ==> (#[trigger] fields@[k]).0@ == anki_card@.fields[k].0.name
                    && fields@[k].1@ == anki_card@.fields[k].1,
        decreases contents.len() - i,
    {
        assert(crate::anki_card::content_ref_views(contents@)[i as int] == (
            contents@[i as int].0@,
            contents@[i as int].1@,
        ));
        fields.push((contents[i].0.name(), contents[i].1.as_str()));
        i += 1;
    }
    let mut images: Vec<Media<'a>> = Vec::new();
    let mut audio: Vec<Media<'a>> = Vec::new();
    let mut videos: Vec<Media<'a>> = Vec::new();
    let media = anki_card.get_media();
    let mut j: usize = 0;
    while j < media.len()
        invariant
            j <= media.len(),
            crate::anki_card::card_media_views(media@) == anki_card@.media,
            describe_all(audio@, of_kind(anki_card@.media.take(j as int), MediaType::Audio)),
            describe_all(videos@, of_kind(anki_card@.media.take(j as int), MediaType::Video)),
            describe_all(images@, of_kind(anki_card@.media.take(j as int), MediaType::Picture)),
        decreases media.len() - j,
    {
        let mut shown: Vec<&'a str> = Vec::new();
        shown.push(media[j].3.name());
        let dto = Media {
            media_source: MediaSourceDTO::from_source(&media[j].1),
            filename: media[j].2.as_str(),
            skip_hash: None,
            fields: shown,
        };
        proof {
            let t = anki_card@.media.take(j + 1);
            assert(t.drop_last() == anki_card@.media.take(j as int));
            assert(t.last() == (media@[j as int].0, media@[j as int].1@, media@[j as int].2@, media@[j as int].3@));
            assert(describes(dto, t.last()));
        }
        match media[j].0 {
            MediaType::Picture => images.push(dto),
            MediaType::Audio => audio.push(dto),
            MediaType::Video => videos.push(dto),
        }
        j += 1;
    }
    proof {
        assert(anki_card@.media.take(media@.len() as int) == anki_card@.media);
    }
    Note {
        deck_name: deck.get_name(),
        model_name: anki_card.get_model_identifier().get_name(),
        fields,
        options: AddNoteOptions {
            allow_duplicate,
            duplicate_scope,
            duplicate_scope_options: None,
        },
        tags: anki_card.get_tags(),
        audio,
        video: videos,
        picture: images,
    }
}

/// The version of the interface that is spoken.
pub const ANKI_CONNECT_API_VERSION: u8 = 6;

/// The request for `action` with `params`, expecting a result of the shape
/// `expect`.
pub fn request(action: &'static str, params: Option<Params>, expect: ReplyKind) -> (r:
    AnkiConnectRequest)
    ensures
        r == (AnkiConnectRequest { action, version: ANKI_CONNECT_API_VERSION, params, expect }),
{
    AnkiConnectRequest { action, version: ANKI_CONNECT_API_VERSION, params, expect }
}

/// The error for a result that does not have the shape that was asked for.
pub open spec fn unexpected_shape() -> AnkiRequestErrorView {
    AnkiRequestErrorView::HttpError("The result does not have the expected shape"@)
}

fn unexpected() -> (e: AnkiRequestError)
    ensures
        e@ == unexpected_shape(),
{
    AnkiRequestError::HttpError(String::from_str("The result does not have the expected shape"))
}

/// A result that is expected to be one number.
pub fn number_of(reply: Reply) -> (r: Result<u64, AnkiRequestError>)
    ensures
        match reply {
            Reply::Number(n) => r matches Ok(got) && got == n,
            _ => r matches Err(e) && e@ == unexpected_shape(),
        },
{
    match reply {
        Reply::Number(n) => Ok(n),
        _ => Err(unexpected()),
    }
}

/// A result that is expected to be a list of numbers.
pub fn numbers_of(reply: Reply) -> (r: Result<Vec<u64>, AnkiRequestError>)
    ensures
        match reply {
            Reply::Numbers(v) => r matches Ok(got) && got == v,
            _ => r matches Err(e) && e@ == unexpected_shape(),
        },
{
    match reply {
        Reply::Numbers(v) => Ok(v),
        _ => Err(unexpected()),
    }
}

/// A result that is expected to be one text.
pub fn text_of(reply: Reply) -> (r: Result<String, AnkiRequestError>)
    ensures
        match reply {
            Reply::Text(s) => r matches Ok(got) && got == s,
            _ => r matches Err(e) && e@ == unexpected_shape(),
        },
{
    match reply {
        Reply::Text(s) => Ok(s),
        _ => Err(unexpected()),
    }
}

/// The version that a result stands for: a number that fits in 16 bits.
pub fn version_of(reply: Reply) -> (r: Result<u16, AnkiRequestError>)
    ensures
        match reply {
            Reply::Number(n) => if n <= u16::MAX {
                r matches Ok(v) && v == n
            } else {
                r matches Err(e) && e@ == unexpected_shape()
            },
            _ => r matches Err(e) && e@ == unexpected_shape(),
        },
{
    match reply {
        Reply::Number(n) => if n <= 65535 {
            Ok(n as u16)
        } else {
            Err(unexpected())
        },
        _ => Err(unexpected()),
    }
}

/// The views of a sequence of decks.
pub open spec fn deck_views(v: Seq<AnkiDeck>) -> Seq<NamedView> {
    v.map_values(|d: AnkiDeck| d@)
}

/// The views of a sequence of models.
pub open spec fn model_views(v: Seq<AnkiModelIdentifier>) -> Seq<NamedView> {
    v.map_values(|m: AnkiModelIdentifier| m@)
}

/// What names with identifiers stand for.
pub open spec fn named(pairs: Seq<(String, u64)>) -> Seq<NamedView> {
    pairs.map_values(|p: (String, u64)| NamedView { id: p.1, name: p.0@ })
}

/// The fields of the model `model_id` with the given names.
pub open spec fn fields_named(model_id: u64, names: Seq<String>) -> Seq<AnkiFieldView> {
    names.map_values(|n: String| AnkiFieldView { model_id, name: n@ })
}

/// The decks that a result stands for: one for every name with its
/// identifier, in the same order.
pub fn decks_of(reply: Reply) -> (r: Result<Vec<AnkiDeck>, AnkiRequestError>)
    ensures
        match reply {
            Reply::NamesAndIds(pairs) => r matches Ok(decks) && deck_views(decks@) == named(
                pairs@,
            ),
            _ => r matches Err(e) && e@ == unexpected_shape(),
        },
{
    match reply {
        Reply::NamesAndIds(pairs) => {
            let mut decks: Vec<AnkiDeck> = Vec::new();
            let mut i: usize = 0;
            while i < pairs.len()
                invariant
                    i <= pairs.len(),
                    decks@.len() == i,
                    forall|k: int| 0 <= k < i ==> decks@[k]@ == named(pairs@)[k],
                decreases pairs.len() - i,
            {
                decks.push(AnkiDeck::new(pairs[i].1, pairs[i].0.clone()));
                i += 1;
            }
            assert(deck_views(decks@) =~= named(pairs@));
            Ok(decks)
        },
        _ => Err(unexpected()),
    }
}

/// The models that a result stands for: one for every name with its
/// identifier, in the same order.
pub fn models_of(reply: Reply) -> (r: Result<Vec<AnkiModelIdentifier>, AnkiRequestError>)
    ensures
        match reply {
            Reply::NamesAndIds(pairs) => r matches Ok(models) && model_views(models@) == named(
                pairs@,
            ),
            _ => r matches Err(e) && e@ == unexpected_shape(),
        },
{
    match reply {
        Reply::NamesAndIds(pairs) => {
            let mut models: Vec<AnkiModelIdentifier> = Vec::new();
            let mut i: usize = 0;
            while i < pairs.len()
                invariant
                    i <= pairs.len(),
                    models@.len() == i,
                    forall|k: int| 0 <= k < i ==> models@[k]@ == named(pairs@)[k],
                decreases pairs.len() - i,
            {
                models.push(AnkiModelIdentifier::new(pairs[i].1, pairs[i].0.clone()));
                i += 1;
            }
            assert(model_views(models@) =~= named(pairs@));
            Ok(models)
        },
        _ => Err(unexpected()),
    }
}

/// The fields of the model `model_id` that a result stands for: one for
/// every name, in the same order.
pub fn fields_of(model_id: ModelId, reply: Reply) -> (r: Result<Vec<AnkiField>, AnkiRequestError>)
    ensures
        match reply {
            Reply::Texts(names) => r matches Ok(fields) && field_views(fields@) == fields_named(
                model_id.0,
                names@,
            ),
            _ => r matches Err(e) && e@ == unexpected_shape(),
        },
        r matches Ok(fields) ==> forall|i: int|
            0 <= i < fields@.len() ==> (#[trigger] fields@[i])@.model_id == model_id.0,
{
    match reply {
        Reply::Texts(names) => {
            let mut fields: Vec<AnkiField> = Vec::new();
            let mut i: usize = 0;
            while i < names.len()
                invariant
                    i <= names.len(),
                    fields@.len() == i,
                    forall|k: int|
                        0 <= k < i ==> fields@[k]@ == fields_named(model_id.0, names@)[k],
                decreases names.len() - i,
            {
                fields.push(AnkiField::new(model_id, names[i].clone()));
                i += 1;
            }
            assert(field_views(fields@) =~= fields_named(model_id.0, names@));
            assert forall|i: int| 0 <= i < fields@.len() implies (#[trigger] fields@[i])@.model_id
                == model_id.0 by {
                assert(fields@[i]@ == fields_named(model_id.0, names@)[i]);
            }
            Ok(fields)
        },
        _ => Err(unexpected()),
    }
}

/// The model that a result stands for: the first of the models that it
/// lists, by identifier and name; none where it lists none.
pub fn first_model_of(reply: Reply) -> (r: Result<Option<AnkiModel>, AnkiRequestError>)
    ensures
        match reply {
            Reply::Models(details) => if details@.len() == 0 {
                r matches Ok(None)
            } else {
                r matches Ok(Some(m)) && m@ == (NamedView {
                    id: details@[0].id,
                    name: details@[0].name@,
                })
            },
            _ => r matches Err(e) && e@ == unexpected_shape(),
        },
{
    match reply {
        Reply::Models(details) => {
            if details.len() == 0 {
                Ok(None)
            } else {
                Ok(Some(AnkiModel::new(details[0].id, details[0].name.clone())))
            }
        },
        _ => Err(unexpected()),
    }
}

/// The card browser's order as the service takes it.
pub open spec fn reordering_of(reorder: Option<CardsReordering>) -> Option<
    crate::client::request::CardsReordering,
> {
    match reorder {
        Some(r) => Some(
            crate::client::request::CardsReordering {
                order: match r.order {
                    SortOrder::Ascending => crate::client::request::SortOrder::Ascending,
                    SortOrder::Descending => crate::client::request::SortOrder::Descending,
                },
                column_id: column_of(r.column_id),
            },
        ),
        None => None,
    }
}

/// The column of the card browser as the service takes it.
pub open spec fn column_of(column: ColumnIdentifier) -> crate::client::request::ColumnIdentifier {
    match column {
        ColumnIdentifier::Custom => crate::client::request::ColumnIdentifier::Custom,
        ColumnIdentifier::Answer => crate::client::request::ColumnIdentifier::Answer,
        ColumnIdentifier::CardMod => crate::client::request::ColumnIdentifier::CardMod,
        ColumnIdentifier::Cards => crate::client::request::ColumnIdentifier::Cards,
        ColumnIdentifier::Deck => crate::client::request::ColumnIdentifier::Deck,
        ColumnIdentifier::Due => crate::client::request::ColumnIdentifier::Due,
        ColumnIdentifier::Ease => crate::client::request::ColumnIdentifier::Ease,
        ColumnIdentifier::Lapses => crate::client::request::ColumnIdentifier::Lapses,
        ColumnIdentifier::Interval => crate::client::request::ColumnIdentifier::Interval,
        ColumnIdentifier::NoteCreation => crate::client::request::ColumnIdentifier::NoteCreation,
        ColumnIdentifier::NoteMod => crate::client::request::ColumnIdentifier::NoteMod,
        ColumnIdentifier::Notetype => crate::client::request::ColumnIdentifier::Notetype,
        ColumnIdentifier::OriginalPosition => {
            crate::client::request::ColumnIdentifier::OriginalPosition
        },
        ColumnIdentifier::Question => crate::client::request::ColumnIdentifier::Question,
        ColumnIdentifier::Reps => crate::client::request::ColumnIdentifier::Reps,
        ColumnIdentifier::SortField => crate::client::request::ColumnIdentifier::SortField,
        ColumnIdentifier::Tags => crate::client::request::ColumnIdentifier::Tags,
        ColumnIdentifier::Stability => crate::client::request::ColumnIdentifier::Stability,
        ColumnIdentifier::Difficulty => crate::client::request::ColumnIdentifier::Difficulty,
        ColumnIdentifier::Retrievability => {
            crate::client::request::ColumnIdentifier::Retrievability
        },
    }
}

/// The column of the card browser as the service takes it.
pub fn wire_column(column: ColumnIdentifier) -> (r: crate::client::request::ColumnIdentifier)
    ensures
        r == column_of(column),
{
    match column {
        ColumnIdentifier::Custom => crate::client::request::ColumnIdentifier::Custom,
        ColumnIdentifier::Answer => crate::client::request::ColumnIdentifier::Answer,
        ColumnIdentifier::CardMod => crate::client::request::ColumnIdentifier::CardMod,
        ColumnIdentifier::Cards => crate::client::request::ColumnIdentifier::Cards,
        ColumnIdentifier::Deck => crate::client::request::ColumnIdentifier::Deck,
        ColumnIdentifier::Due => crate::client::request::ColumnIdentifier::Due,
        ColumnIdentifier::Ease => crate::client::request::ColumnIdentifier::Ease,
        ColumnIdentifier::Lapses => crate::client::request::ColumnIdentifier::Lapses,
        ColumnIdentifier::Interval => crate::client::request::ColumnIdentifier::Interval,
        ColumnIdentifier::NoteCreation => crate::client::request::ColumnIdentifier::NoteCreation,
        ColumnIdentifier::NoteMod => crate::client::request::ColumnIdentifier::NoteMod,
        ColumnIdentifier::Notetype => crate::client::request::ColumnIdentifier::Notetype,
        ColumnIdentifier::OriginalPosition => {
            crate::client::request::ColumnIdentifier::OriginalPosition
        },
        ColumnIdentifier::Question => crate::client::request::ColumnIdentifier::Question,
        ColumnIdentifier::Reps => crate::client::request::ColumnIdentifier::Reps,
        ColumnIdentifier::SortField => crate::client::request::ColumnIdentifier::SortField,
        ColumnIdentifier::Tags => crate::client::request::ColumnIdentifier::Tags,
        ColumnIdentifier::Stability => crate::client::request::ColumnIdentifier::Stability,
        ColumnIdentifier::Difficulty => crate::client::request::ColumnIdentifier::Difficulty,
        ColumnIdentifier::Retrievability => {
            crate::client::request::ColumnIdentifier::Retrievability
        },
    }
}

/// What is sent to show a search in the card browser.
pub fn gui_browse_params(query: &AnkiSearchQuery, reorder_cards: Option<CardsReordering>) -> (r:
    GuiBrowseParams)
    ensures
        r.query@ == query@,
        r.reorder_cards == reordering_of(reorder_cards),
{
    let reorder = match reorder_cards {
        Some(r) => Some(
            crate::client::request::CardsReordering {
                order: match r.order {
                    SortOrder::Ascending => crate::client::request::SortOrder::Ascending,
                    SortOrder::Descending => crate::client::request::SortOrder::Descending,
                },
                column_id: wire_column(r.column_id),
            },
        ),
        None => None,
    };
    GuiBrowseParams { query: String::from_str(query.as_str()), reorder_cards: reorder }
}

/// What is sent to store a media file that is given by one part: a path,
/// an address or base64 data.
pub fn store_media_file_params(
    path: Option<&str>,
    url: Option<&str>,
    data: Option<&str>,
    filename: &str,
    overwrite: bool,
) -> (r: StoreMediaFileParams)
    ensures
        optional_text(r.path) == optional_str(path),
        optional_text(r.url) == optional_str(url),
        optional_text(r.data) == optional_str(data),
        r.filename@ == filename@,
        r.delete_existing == overwrite,
{
    StoreMediaFileParams {
        path: match path {
            Some(p) => Some(String::from_str(p)),
            None => None,
        },
        url: match url {
            Some(u) => Some(String::from_str(u)),
            None => None,
        },
        data: match data {
            Some(d) => Some(String::from_str(d)),
            None => None,
        },
        filename: String::from_str(filename),
        delete_existing: overwrite,
    }
}

/// The scope as the service takes it.
pub open spec fn scope_of(scope: Option<DuplicateScope>) -> Option<DuplicateScopeDto> {
    match scope {
        Some(DuplicateScope::Deck) => Some(DuplicateScopeDto::Deck),
        Some(DuplicateScope::Collection) => Some(DuplicateScopeDto::Collection),
        None => None,
    }
}

/// `owned` holds what `media` hold, one by one and in order.
pub open spec fn same_media(owned: Seq<crate::client::request::Media>, media: Seq<Media>) -> bool {
    owned.len() == media.len() && forall|i: int|
        0 <= i < owned.len() ==> {
            &&& optional_text((#[trigger] owned[i]).path) == media[i].media_source.spec_path()
            &&& optional_text(owned[i].url) == media[i].media_source.spec_url()
            &&& optional_text(owned[i].data) == media[i].media_source.spec_data()
            &&& owned[i].filename@ == media[i].filename@
            &&& texts(owned[i].fields@) == crate::anki_card::str_views(media[i].fields@)
        }
}

fn owned_text(s: Option<&str>) -> (r: Option<String>)
    ensures
        optional_text(r) == optional_str(s),
{
    match s {
        Some(s) => Some(String::from_str(s)),
        None => None,
    }
}

fn owned_texts(items: &Vec<&str>) -> (r: Vec<String>)
    ensures
        texts(r@) == crate::anki_card::str_views(items@),
{
    let mut r: Vec<String> = Vec::new();
    let mut i: usize = 0;
    while i < items.len()
        invariant
            i <= items.len(),
            r@.len() == i,
            forall|k: int| 0 <= k < i ==> r@[k]@ == items@[k]@,
        decreases items.len() - i,
    {
        r.push(String::from_str(items[i]));
        i += 1;
    }
    assert(texts(r@) =~= crate::anki_card::str_views(items@));
    r
}

fn owned_media(media: &Vec<Media>) -> (r: Vec<crate::client::request::Media>)
    ensures
        same_media(r@, media@),
{
    let mut r: Vec<crate::client::request::Media> = Vec::new();
    let mut i: usize = 0;
    while i < media.len()
        invariant
            i <= media.len(),
            same_media(r@, media@.take(i as int)),
        decreases media.len() - i,
    {
        let m = &media[i];
        r.push(
            crate::client::request::Media {
                path: owned_text(m.media_source.path()),
                url: owned_text(m.media_source.url()),
                data: owned_text(m.media_source.data()),
                filename: String::from_str(m.filename),
                fields: owned_texts(&m.fields),
            },
        );
        i += 1;
    }
    assert(media@.take(media@.len() as int) == media@);
    r
}

/// A note with strings of its own in place of borrowed ones, as a sender
/// takes it. The contents come by field name, in the order of the note.
pub fn owned_note(note: &Note) -> (r: NoteDto)
    ensures
        r.deck_name@ == note.deck_name@,
        r.model_name@ == note.model_name@,
        r.fields@.len() == note.fields@.len(),
        forall|i: int|
            0 <= i < r.fields@.len() ==> (#[trigger] r.fields@[i]).0@ == note.fields@[i].0@
                && r.fields@[i].1@ == note.fields@[i].1@,
        r.options.allow_duplicate == note.options.allow_duplicate,
        r.options.duplicate_scope == scope_of(note.options.duplicate_scope),
        r.options.duplicate_scope_options is None,
        texts(r.tags@) == crate::anki_card::str_views(note.tags@),
        same_media(r.audio@, note.audio@),
        same_media(r.video@, note.video@),
        same_media(r.picture@, note.picture@),
{
    let mut fields: Vec<(String, String)> = Vec::new();
    let mut i: usize = 0;
    while i < note.fields.len()
        invariant
            i <= note.fields.len(),
            fields@.len() == i,
            forall|k: int|
                0 <= k < i ==> (#[trigger] fields@[k]).0@ == note.fields@[k].0@ && fields@[k].1@
                    == note.fields@[k].1@,
        decreases note.fields.len() - i,
    {
        fields.push((String::from_str(note.fields[i].0), String::from_str(note.fields[i].1)));
        i += 1;
    }
    let scope = match note.options.duplicate_scope {
        Some(DuplicateScope::Deck) => Some(DuplicateScopeDto::Deck),
        Some(DuplicateScope::Collection) => Some(DuplicateScopeDto::Collection),
        None => None,
    };
    NoteDto {
        deck_name: String::from_str(note.deck_name),
        model_name: String::from_str(note.model_name),
        fields,
        options: crate::client::request::AddNoteOptions {
            allow_duplicate: note.options.allow_duplicate,
            duplicate_scope: scope,
            duplicate_scope_options: None,
        },
        tags: owned_texts(&note.tags),
        audio: owned_media(&note.audio),
        video: owned_media(&note.video),
        picture: owned_media(&note.picture),
    }
}

/// `reply` is what an answer of a sender means: the failure of the
/// delivery as it came; for an answer with an error, the failure that its
/// message stands for; for an answer with a result and no error, the
/// result; for an answer with neither, a failure of its own.
pub open spec fn means(
    answer: Result<AnkiConnectResponse<Reply>, AnkiRequestError>,
    reply: Result<Reply, AnkiRequestError>,
) -> bool {
    match answer {
        Err(err) => reply matches Err(e) && e == err,
        Ok(response) => match response.error {
            Some(msg) => reply matches Err(e) && e@ == AnkiRequestErrorView::AnkiConnectError(
                classify(msg@),
            ),
            None => match response.result {
                Some(v) => reply matches Ok(got) && got == v,
                None => reply matches Err(e) && e@ == both_null(),
            },
        },
    }
}

/// `r` is what a reply gives that is read as one number.
pub open spec fn gives_number(
    reply: Result<Reply, AnkiRequestError>,
    r: Result<u64, AnkiRequestError>,
) -> bool {
    match reply {
        Ok(Reply::Number(n)) => r matches Ok(got) && got == n,
        Ok(_) => r matches Err(e) && e@ == unexpected_shape(),
        Err(err) => r matches Err(e) && e == err,
    }
}

/// `r` is what a reply gives that is read as a list of numbers.
pub open spec fn gives_numbers(
    reply: Result<Reply, AnkiRequestError>,
    r: Result<Vec<u64>, AnkiRequestError>,
) -> bool {
    match reply {
        Ok(Reply::Numbers(v)) => r matches Ok(got) && got == v,
        Ok(_) => r matches Err(e) && e@ == unexpected_shape(),
        Err(err) => r matches Err(e) && e == err,
    }
}

/// `r` is what a reply gives that is read as one text.
pub open spec fn gives_text(
    reply: Result<Reply, AnkiRequestError>,
    r: Result<String, AnkiRequestError>,
) -> bool {
    match reply {
        Ok(Reply::Text(s)) => r matches Ok(got) && got == s,
        Ok(_) => r matches Err(e) && e@ == unexpected_shape(),
        Err(err) => r matches Err(e) && e == err,
    }
}

/// `r` is what a reply gives that is read as the version of the service:
/// a number that fits in 16 bits.
pub open spec fn gives_version(
    reply: Result<Reply, AnkiRequestError>,
    r: Result<u16, AnkiRequestError>,
) -> bool {
    match reply {
        Ok(Reply::Number(n)) => if n <= u16::MAX {
            r matches Ok(v) && v == n
        } else {
            r matches Err(e) && e@ == unexpected_shape()
        },
        Ok(_) => r matches Err(e) && e@ == unexpected_shape(),
        Err(err) => r matches Err(e) && e == err,
    }
}

/// `r` is what a reply gives that is read as decks: one for every name
/// with its identifier, in the same order.
pub open spec fn gives_decks(
    reply: Result<Reply, AnkiRequestError>,
    r: Result<Vec<AnkiDeck>, AnkiRequestError>,
) -> bool {
    match reply {
        Ok(Reply::NamesAndIds(pairs)) => r matches Ok(decks) && deck_views(decks@) == named(
            pairs@,
        ),
        Ok(_) => r matches Err(e) && e@ == unexpected_shape(),
        Err(err) => r matches Err(e) && e == err,
    }
}

/// `r` is what a reply gives that is read as models: one for every name
/// with its identifier, in the same order.
pub open spec fn gives_models(
    reply: Result<Reply, AnkiRequestError>,
    r: Result<Vec<AnkiModelIdentifier>, AnkiRequestError>,
) -> bool {
    match reply {
        Ok(Reply::NamesAndIds(pairs)) => r matches Ok(models) && model_views(models@) == named(
            pairs@,
        ),
        Ok(_) => r matches Err(e) && e@ == unexpected_shape(),
        Err(err) => r matches Err(e) && e == err,
    }
}

/// `r` is what a reply gives that is read as the fields of the model
/// `model_id`: one for every name, in the same order.
pub open spec fn gives_fields(
    model_id: u64,
    reply: Result<Reply, AnkiRequestError>,
    r: Result<Vec<AnkiField>, AnkiRequestError>,
) -> bool {
    match reply {
        Ok(Reply::Texts(names)) => r matches Ok(fields) && field_views(fields@) == fields_named(
            model_id,
            names@,
        ),
        Ok(_) => r matches Err(e) && e@ == unexpected_shape(),
        Err(err) => r matches Err(e) && e == err,
    }
}

/// `r` is what a reply gives that is read as one model: the first of the
/// models that it lists, by identifier and name; none where it lists none.
pub open spec fn gives_first_model(
    reply: Result<Reply, AnkiRequestError>,
    r: Result<Option<AnkiModel>, AnkiRequestError>,
) -> bool {
    match reply {
        Ok(Reply::Models(details)) => if details@.len() == 0 {
            r matches Ok(None)
        } else {
            r matches Ok(Some(m)) && m@ == (NamedView {
                id: details@[0].id,
                name: details@[0].name@,
            })
        },
        Ok(_) => r matches Err(e) && e@ == unexpected_shape(),
        Err(err) => r matches Err(e) && e == err,
    }
}

/// `r` is what checking a card against the fields `known` of its model
/// gives: success where every field in which the card holds a content is
/// one of them, and otherwise the failure that names the first field that
/// is not, and the model.
pub open spec fn checked(
    card: AnkiCardView,
    known: Seq<AnkiFieldView>,
    r: Result<(), AnkiRequestError>,
) -> bool {
    &&& r is Ok <==> forall|i: int|
        0 <= i < card.fields.len() ==> known.contains(#[trigger] populated(card.fields)[i])
    &&& r matches Err(e) ==> exists|i: int|
        is_first_invalid(populated(card.fields), known, i) && e@
            == AnkiRequestErrorView::InvalidField(populated(card.fields)[i].name, card.model)
}

/// `dtos` say, one by one and in order, what `media` are, with strings of
/// their own.
pub open spec fn describe_owned(
    dtos: Seq<crate::client::request::Media>,
    media: Seq<CardMediaView>,
) -> bool {
    dtos.len() == media.len() && forall|i: int|
        0 <= i < dtos.len() ==> {
            &&& optional_text((#[trigger] dtos[i]).path) == path_of(media[i].1)
            &&& optional_text(dtos[i].url) == url_of(media[i].1)
            &&& optional_text(dtos[i].data) == data_of(media[i].1)
            &&& dtos[i].filename@ == media[i].2
            &&& texts(dtos[i].fields@) == seq![media[i].3.name]
        }
}

/// `dto` says what a card is that is added to a deck: the names of deck
/// and model, the contents by field name and the tags in the order of the
/// card, how duplicates are dealt with, and the media parted by kind, each
/// kind in the order of the card.
pub open spec fn describes_card(
    dto: NoteDto,
    deck: NamedView,
    card: AnkiCardView,
    allow_duplicate: bool,
    duplicate_scope: Option<DuplicateScope>,
) -> bool {
    &&& dto.deck_name@ == deck.name
    &&& dto.model_name@ == card.model.name
    &&& dto.fields@.len() == card.fields.len()
    &&& forall|i: int|
        0 <= i < dto.fields@.len() ==> (#[trigger] dto.fields@[i]).0@ == card.fields[i].0.name
            && dto.fields@[i].1@ == card.fields[i].1
    &&& texts(dto.tags@) == card.tags
    &&& dto.options.allow_duplicate == allow_duplicate
    &&& dto.options.duplicate_scope == scope_of(duplicate_scope)
    &&& dto.options.duplicate_scope_options is None
    &&& describe_owned(dto.audio@, of_kind(card.media, MediaType::Audio))
    &&& describe_owned(dto.video@, of_kind(card.media, MediaType::Video))
    &&& describe_owned(dto.picture@, of_kind(card.media, MediaType::Picture))
}

/// What is sent is the card that `describes_card` describes.
pub open spec fn sends_card(
    params: Option<Params>,
    deck: NamedView,
    card: AnkiCardView,
    allow_duplicate: bool,
    duplicate_scope: Option<DuplicateScope>,
) -> bool {
    match params {
        Some(Params::AddNote(p)) => describes_card(
            p.note,
            deck,
            card,
            allow_duplicate,
            duplicate_scope,
        ),
        _ => false,
    }
}

/// Media that are described with borrowed strings are described with
/// strings of their own all the same.
proof fn lemma_owned_media(
    owned: Seq<crate::client::request::Media>,
    borrowed: Seq<Media>,
    media: Seq<CardMediaView>,
)
    requires
        same_media(owned, borrowed),
        describe_all(borrowed, media),
    ensures
        describe_owned(owned, media),
{
    assert forall|i: int| 0 <= i < owned.len() implies {
        &&& optional_text((#[trigger] owned[i]).path) == path_of(media[i].1)
        &&& optional_text(owned[i].url) == url_of(media[i].1)
        &&& optional_text(owned[i].data) == data_of(media[i].1)
        &&& owned[i].filename@ == media[i].2
        &&& texts(owned[i].fields@) == seq![media[i].3.name]
    } by {
        assert(describes(borrowed[i], media[i]));
        assert(crate::anki_card::str_views(borrowed[i].fields@) =~= seq![media[i].3.name]);
    }
}

/// The client for cards whose model is known by identifier and name,
/// talking through a sender of type `T`.
pub struct AnkiClient<T: AnkiConnectRequestSender> {
    request_sender: T,
}

impl<T: AnkiConnectRequestSender> AnkiClient<T> {
    /// The sender through which the client talks.
    pub closed spec fn sender(self) -> T {
        self.request_sender
    }

    /// The client's sender is handed the request for the action named
    /// `action` with `params`, expecting a result of the shape `expect`,
    /// and `reply` is what its answer means.
    pub open spec fn asked(
        &self,
        action: Seq<char>,
        params: Option<Params>,
        expect: ReplyKind,
        reply: Result<Reply, AnkiRequestError>,
    ) -> bool {
        exists|
            request: AnkiConnectRequest,
            answer: Result<AnkiConnectResponse<Reply>, AnkiRequestError>,
        |
            #[trigger] self.sender().answers(request, answer) && request.action@ == action
                && request.version == ANKI_CONNECT_API_VERSION && request.params == params
                && request.expect == expect && means(answer, reply)
    }

    /// `r` is what the client reads as the fields of `model` from what its
    /// sender answers when it is asked for them.
    pub open spec fn got_fields(
        &self,
        model: NamedView,
        r: Result<Vec<AnkiField>, AnkiRequestError>,
    ) -> bool {
        exists|params: Option<Params>, reply: Result<Reply, AnkiRequestError>|
            #[trigger] self.asked("modelFieldNames"@, params, ReplyKind::Texts, reply)
                && sends_model_name(params, model.name) && gives_fields(model.id, reply, r)
    }

    /// `r` is what checking `card` gives: the fields of its model are
    /// fetched, and the card is checked against them. A failure to fetch
    /// them is handed on.
    pub open spec fn validated(&self, card: AnkiCardView, r: Result<(), AnkiRequestError>) -> bool {
        exists|fetched: Result<Vec<AnkiField>, AnkiRequestError>|
            #[trigger] self.got_fields(card.model, fetched) && match fetched {
                Ok(fields) => checked(card, field_views(fields@), r),
                Err(err) => r matches Err(e) && e == err,
            }
    }

    /// `r` is what adding `card` to `deck` without a check gives: the
    /// sender is asked to add what describes the card, and the number that
    /// it answers is the identifier of the new note.
    pub open spec fn added(
        &self,
        deck: NamedView,
        card: AnkiCardView,
        allow_duplicate: bool,
        duplicate_scope: Option<DuplicateScope>,
        r: Result<u64, AnkiRequestError>,
    ) -> bool {
        exists|params: Option<Params>, reply: Result<Reply, AnkiRequestError>|
            #[trigger] self.asked("addNote"@, params, ReplyKind::Number, reply) && sends_card(
                params,
                deck,
                card,
                allow_duplicate,
                duplicate_scope,
            ) && gives_number(reply, r)
    }

    /// The client that talks through `request_sender`.
    pub fn new(request_sender: T) -> (r: AnkiClient<T>)
        ensures
            r.sender() == request_sender,
    {
        AnkiClient { request_sender }
    }

    /// Hands the request for `action` to the sender and gives what its
    /// answer means.
    fn ask(&self, action: &'static str, params: Option<Params>, expect: ReplyKind) -> (reply:
        Result<Reply, AnkiRequestError>)
        ensures
            self.asked(action@, params, expect, reply),
    {
        let sent = request(action, params, expect);
        let answer = self.request_sender.send_request(sent);
        let reply = match answer {
            Ok(response) => response.into_result(),
            Err(e) => Err(e),
        };
        assert(self.sender().answers(sent, answer) && means(answer, reply));
        reply
    }

    /// The cards that fit `query`: the sender is asked for `findCards`
    /// with the text of the query, and the numbers that it answers are
    /// given as they came.
    pub fn find_cards(&self, query: &AnkiSearchQuery) -> (r: Result<Vec<u64>, AnkiRequestError>)
        ensures
            exists|params: Option<Params>, reply: Result<Reply, AnkiRequestError>|
                #[trigger] self.asked("findCards"@, params, ReplyKind::Numbers, reply)
                    && sends_card_query(params, query@) && gives_numbers(reply, r),
    {
        let params = FindCardsParams { query: String::from_str(query.as_str()) };
        let reply = self.ask("findCards", Some(Params::FindCards(params)), ReplyKind::Numbers);
        match reply {
            Ok(reply) => numbers_of(reply),
            Err(e) => Err(e),
        }
    }

    /// All decks of the collection: the sender is asked for
    /// `deckNamesAndIds` without parameters, and every name that it
    /// answers gives a deck with its identifier, in the order of the
    /// answer.
    pub fn get_all_decks(&self) -> (r: Result<Vec<AnkiDeck>, AnkiRequestError>)
        ensures
            exists|reply: Result<Reply, AnkiRequestError>|
                #[trigger] self.asked("deckNamesAndIds"@, None, ReplyKind::NamesAndIds, reply)
                    && gives_decks(reply, r),
    {
        let reply = self.ask("deckNamesAndIds", None, ReplyKind::NamesAndIds);
        match reply {
            Ok(reply) => decks_of(reply),
            Err(e) => Err(e),
        }
    }

    /// Creates a deck named `deck_name` and gives its identifier: the
    /// sender is asked for `createDeck` with the name, and the number that
    /// it answers is the identifier.
    pub fn create_deck(&self, deck_name: &str) -> (r: Result<u64, AnkiRequestError>)
        ensures
            exists|params: Option<Params>, reply: Result<Reply, AnkiRequestError>|
                #[trigger] self.asked("createDeck"@, params, ReplyKind::Number, reply)
                    && sends_new_deck(params, deck_name@) && gives_number(reply, r),
    {
        let params = CreateDeckParams { deck: String::from_str(deck_name) };
        let reply = self.ask("createDeck", Some(Params::CreateDeck(params)), ReplyKind::Number);
        match reply {
            Ok(reply) => number_of(reply),
            Err(e) => Err(e),
        }
    }

    /// Shows the cards that fit `query` in the card browser, in the given
    /// order where one is given, and gives them: the sender is asked for
    /// `guiBrowse` with the query and the order, and the numbers that it
    /// answers are given as they came.
    pub fn gui_browse(&self, query: &AnkiSearchQuery, reorder_cards: Option<CardsReordering>) -> (r:
        Result<Vec<u64>, AnkiRequestError>)
        ensures
            exists|params: Option<Params>, reply: Result<Reply, AnkiRequestError>|
                #[trigger] self.asked("guiBrowse"@, params, ReplyKind::Numbers, reply)
                    && sends_browse(params, query@, reordering_of(reorder_cards))
                    && gives_numbers(reply, r),
    {
        let params = gui_browse_params(query, reorder_cards);
        let reply = self.ask("guiBrowse", Some(Params::GuiBrowse(params)), ReplyKind::Numbers);
        match reply {
            Ok(reply) => numbers_of(reply),
            Err(e) => Err(e),
        }
    }

    /// Stores the file at `path` under `filename` and gives the name that
    /// was used: the sender is asked for `storeMediaFile` with the path,
    /// the file name and whether a file of that name is replaced, and the
    /// text that it answers is the name.
    pub fn store_media_file_from_path(&self, path: &str, filename: &str, overwrite: bool) -> (r:
        Result<String, AnkiRequestError>)
        ensures
            exists|params: Option<Params>, reply: Result<Reply, AnkiRequestError>|
                #[trigger] self.asked("storeMediaFile"@, params, ReplyKind::Text, reply)
                    && sends_file(params, Some(path@), None, None, filename@, overwrite)
                    && gives_text(reply, r),
    {
        let params = store_media_file_params(Some(path), None, None, filename, overwrite);
        let reply = self.ask(
            "storeMediaFile",
            Some(Params::StoreMediaFile(params)),
            ReplyKind::Text,
        );
        match reply {
            Ok(reply) => text_of(reply),
            Err(e) => Err(e),
        }
    }

    /// Stores the file at the address `url` under `filename` and gives the
    /// name that was used: the sender is asked for `storeMediaFile` with
    /// the address, the file name and whether a file of that name is
    /// replaced, and the text that it answers is the name.
    pub fn store_media_file_from_url(&self, url: &str, filename: &str, overwrite: bool) -> (r:
        Result<String, AnkiRequestError>)
        ensures
            exists|params: Option<Params>, reply: Result<Reply, AnkiRequestError>|
                #[trigger] self.asked("storeMediaFile"@, params, ReplyKind::Text, reply)
                    && sends_file(params, None, Some(url@), None, filename@, overwrite)
                    && gives_text(reply, r),
    {
        let params = store_media_file_params(None, Some(url), None, filename, overwrite);
        let reply = self.ask(
            "storeMediaFile",
            Some(Params::StoreMediaFile(params)),
            ReplyKind::Text,
        );
        match reply {
            Ok(reply) => text_of(reply),
            Err(e) => Err(e),
        }
    }

    /// Stores the file given as base64 data under `filename` and gives the
    /// name that was used: the sender is asked for `storeMediaFile` with
    /// the data, the file name and whether a file of that name is
    /// replaced, and the text that it answers is the name.
    pub fn store_media_file_from_base64(&self, data: &str, filename: &str, overwrite: bool) -> (r:
        Result<String, AnkiRequestError>)
        ensures
            exists|params: Option<Params>, reply: Result<Reply, AnkiRequestError>|
                #[trigger] self.asked("storeMediaFile"@, params, ReplyKind::Text, reply)
                    && sends_file(params, None, None, Some(data@), filename@, overwrite)
                    && gives_text(reply, r),
    {
        let params = store_media_file_params(None, None, Some(data), filename, overwrite);
        let reply = self.ask(
            "storeMediaFile",
            Some(Params::StoreMediaFile(params)),
            ReplyKind::Text,
        );
        match reply {
            Ok(reply) => text_of(reply),
            Err(e) => Err(e),
        }
    }

    /// The version of the service: the sender is asked for `version`
    /// without parameters, and the number that it answers is the version
    /// where it fits in 16 bits.
    pub fn get_version(&self) -> (r: Result<u16, AnkiRequestError>)
        ensures
            exists|reply: Result<Reply, AnkiRequestError>|
                #[trigger] self.asked("version"@, None, ReplyKind::Number, reply) && gives_version(
                    reply,
                    r,
                ),
    {
        let reply = self.ask("version", None, ReplyKind::Number);
        match reply {
            Ok(reply) => version_of(reply),
            Err(e) => Err(e),
        }
    }

    /// The fields of `model`: the sender is asked for `modelFieldNames`
    /// with the name of the model, and every name that it answers gives a
    /// field of the model, in the order of the answer.
    pub fn get_fields_for_model(&self, model: &AnkiModelIdentifier) -> (r: Result<
        Vec<AnkiField>,
        AnkiRequestError,
    >)
        ensures
            self.got_fields(model@, r),
            r matches Ok(fields) ==> forall|i: int|
                0 <= i < fields@.len() ==> (#[trigger] fields@[i])@.model_id == model@.id,
    {
        let params = ModelFieldNamesParams { model_name: String::from_str(model.get_name()) };
        let reply = self.ask(
            "modelFieldNames",
            Some(Params::ModelFieldNames(params)),
            ReplyKind::Texts,
        );
        match reply {
            Ok(reply) => fields_of(model.id(), reply),
            Err(e) => Err(e),
        }
    }

    /// All models of the collection: the sender is asked for
    /// `modelNamesAndIds` without parameters, and every name that it
    /// answers gives a model with its identifier, in the order of the
    /// answer.
    pub fn get_all_models(&self) -> (r: Result<Vec<AnkiModelIdentifier>, AnkiRequestError>)
        ensures
            exists|reply: Result<Reply, AnkiRequestError>|
                #[trigger] self.asked("modelNamesAndIds"@, None, ReplyKind::NamesAndIds, reply)
                    && gives_models(reply, r),
    {
        let reply = self.ask("modelNamesAndIds", None, ReplyKind::NamesAndIds);
        match reply {
            Ok(reply) => models_of(reply),
            Err(e) => Err(e),
        }
    }

    /// The model with the identifier `id`, if there is one: the sender is
    /// asked for `findModelsById` with that one identifier, and the first
    /// model that it answers is given by identifier and name.
    pub fn get_model_by_id(&self, id: u64) -> (r: Result<Option<AnkiModel>, AnkiRequestError>)
        ensures
            exists|params: Option<Params>, reply: Result<Reply, AnkiRequestError>|
                #[trigger] self.asked("findModelsById"@, params, ReplyKind::Models, reply)
                    && sends_model_ids(params, seq![id]) && gives_first_model(reply, r),
    {
        let mut model_ids: Vec<u64> = Vec::new();
        model_ids.push(id);
        assert(model_ids@ =~= seq![id]);
        let params = FindModelsByIdParams { model_ids };
        let reply = self.ask(
            "findModelsById",
            Some(Params::FindModelsById(params)),
            ReplyKind::Models,
        );
        match reply {
            Ok(reply) => first_model_of(reply),
            Err(e) => Err(e),
        }
    }

    /// Checks the card against the fields that the service reports for its
    /// model: the fields are fetched as
    /// [`AnkiClient::get_fields_for_model`] says, and the card passes where
    /// every field in which it holds a content is one of them. The failure
    /// names the first field that is not; a failure to fetch the fields is
    /// handed on.
    pub fn validate_fields(&self, anki_card: &AnkiCard) -> (r: Result<(), AnkiRequestError>)
        ensures
            self.validated(anki_card@, r),
    {
        let fetched = self.get_fields_for_model(anki_card.get_model_identifier());
        match fetched {
            Ok(model_field_names) => check_fields(anki_card, &model_field_names),
            Err(e) => Err(e),
        }
    }

    /// Adds the card to `deck` without checking its fields, and gives the
    /// identifier of the new note: the sender is asked for `addNote` with
    /// what [`note_for_card`] makes, and the number that it answers is the
    /// identifier.
    pub fn add_note_no_validation(
        &self,
        deck: AnkiDeck,
        anki_card: AnkiCard,
        allow_duplicate: bool,
        duplicate_scope: Option<DuplicateScope>,
    ) -> (r: Result<u64, AnkiRequestError>)
        ensures
            self.added(deck@, anki_card@, allow_duplicate, duplicate_scope, r),
    {
        let note = note_for_card(&deck, &anki_card, allow_duplicate, duplicate_scope);
        let dto = owned_note(&note);
        proof {
            lemma_owned_media(
                dto.audio@,
                note.audio@,
                of_kind(anki_card@.media, MediaType::Audio),
            );
            lemma_owned_media(
                dto.video@,
                note.video@,
                of_kind(anki_card@.media, MediaType::Video),
            );
            lemma_owned_media(
                dto.picture@,
                note.picture@,
                of_kind(anki_card@.media, MediaType::Picture),
            );
            assert(describes_card(dto, deck@, anki_card@, allow_duplicate, duplicate_scope));
        }
        let params = AddNoteParams { note: dto };
        let reply = self.ask("addNote", Some(Params::AddNote(params)), ReplyKind::Number);
        match reply {
            Ok(reply) => number_of(reply),
            Err(e) => Err(e),
        }
    }

    /// Adds the card to `deck` and gives the identifier of the new note:
    /// the card is checked as [`AnkiClient::validate_fields`] says, and a
    /// card that passes is added as
    /// [`AnkiClient::add_note_no_validation`] says. A card that fails the
    /// check is not sent, and the failure of the check is the result.
    pub fn add_note(
        &self,
        deck: AnkiDeck,
        anki_card: AnkiCard,
        allow_duplicate: bool,
        duplicate_scope: Option<DuplicateScope>,
    ) -> (r: Result<u64, AnkiRequestError>)
        ensures
            exists|check: Result<(), AnkiRequestError>|
                #[trigger] self.validated(anki_card@, check) && match check {
                    Ok(_) => self.added(deck@, anki_card@, allow_duplicate, duplicate_scope, r),
                    Err(err) => r matches Err(e) && e == err,
                },
    {
        let check = self.validate_fields(&anki_card);
        match check {
            Ok(_) => self.add_note_no_validation(
                deck,
                anki_card,
                allow_duplicate,
                duplicate_scope,
            ),
            Err(e) => Err(e),
        }
    }
}

} // verus!
