//! The client for cards and notes.

use crate::builders::query::{flag_number, Flag, Query};
use crate::client::decks::{card_ids_from, reads_card_ids, sends_card_query};
use crate::client::media::{
    data_of, data_part, optional_text, path_of, path_part, url_of, url_part,
};
use crate::client::request::{
    AddNoteOptions, AddNoteParams, CardIdsParams, CardsReordering, ColumnIdentifier,
    DeleteNotesParams, DuplicateScopeDto, FindCardsParams, FindNotesParams, GuiBrowseParams,
    Media, NoteDto, NoteIdParam, NoteInfo, Params, Reply, ReplyKind, SetFlagParams, SortOrder,
    UpdateNoteFieldsParams,
};
use crate::collections::{pair_texts, FieldValues};
use crate::error::{AnkiError, AnkiErrorView};
use crate::http::{
    expect_note, expect_nothing, expect_number, expect_numbers, reads_note, reads_nothing,
    unexpected_shape, RequestSender,
};
use crate::models::card::CardId;
use crate::models::deck::{Deck, DeckView};
use crate::models::media::{FieldMedia, FieldMediaView, MediaType};
use crate::models::note::{Note, NoteId, NoteView};
use crate::text::texts;
use vstd::prelude::*;
use vstd::std_specs::convert::FromSpecImpl;

verus! {

/// Where duplicates of a new note are looked for.
#[derive(Debug, Clone, Copy, PartialEq, Eq)]
pub enum DuplicateScope {
    /// In the deck to which the note is added.
    Deck,
    /// In the whole collection.
    Collection,
}

impl From<DuplicateScope> for DuplicateScopeDto {
    fn from(value: DuplicateScope) -> (r: DuplicateScopeDto) {
        match value {
            DuplicateScope::Deck => DuplicateScopeDto::Deck,
            DuplicateScope::Collection => DuplicateScopeDto::Collection,
        }
    }
}

impl FromSpecImpl<DuplicateScope> for DuplicateScopeDto {
    open spec fn obeys_from_spec() -> bool {
        true
    }

    open spec fn from_spec(value: DuplicateScope) -> DuplicateScopeDto {
        match value {
            DuplicateScope::Deck => DuplicateScopeDto::Deck,
            DuplicateScope::Collection => DuplicateScopeDto::Collection,
        }
    }
}

/// The columns by which the card browser can sort.
#[derive(Debug, Clone, Copy, PartialEq, Eq)]
pub enum SortColumn {
    Answer,
    CardModified,
    Cards,
    Deck,
    Due,
    Ease,
    Lapses,
    Interval,
    NoteCreation,
    NoteMod,
    NoteType,
    OriginalPosition,
    Question,
    Reps,
    SortField,
    Tags,
    Stability,
    Difficulty,
    Retrievability,
}

impl From<SortColumn> for ColumnIdentifier {
    fn from(value: SortColumn) -> (r: ColumnIdentifier) {
        match value {
            SortColumn::Answer => ColumnIdentifier::Answer,
            SortColumn::CardModified => ColumnIdentifier::CardMod,
            SortColumn::Cards => ColumnIdentifier::Cards,
            SortColumn::Deck => ColumnIdentifier::Deck,
            SortColumn::Due => ColumnIdentifier::Due,
            SortColumn::Ease => ColumnIdentifier::Ease,
            SortColumn::Lapses => ColumnIdentifier::Lapses,
            SortColumn::Interval => ColumnIdentifier::Interval,
            SortColumn::NoteCreation => ColumnIdentifier::NoteCreation,
            SortColumn::NoteMod => ColumnIdentifier::NoteMod,
            SortColumn::NoteType => ColumnIdentifier::Notetype,
            SortColumn::OriginalPosition => ColumnIdentifier::OriginalPosition,
            SortColumn::Question => ColumnIdentifier::Question,
            SortColumn::Reps => ColumnIdentifier::Reps,
            SortColumn::SortField => ColumnIdentifier::SortField,
            SortColumn::Tags => ColumnIdentifier::Tags,
            SortColumn::Stability => ColumnIdentifier::Stability,
            SortColumn::Difficulty => ColumnIdentifier::Difficulty,
            SortColumn::Retrievability => ColumnIdentifier::Retrievability,
        }
    }
}

/// The column of the card browser that `column` stands for.
pub open spec fn column_of(value: SortColumn) -> ColumnIdentifier {
    match value {
        SortColumn::Answer => ColumnIdentifier::Answer,
        SortColumn::CardModified => ColumnIdentifier::CardMod,
        SortColumn::Cards => ColumnIdentifier::Cards,
        SortColumn::Deck => ColumnIdentifier::Deck,
        SortColumn::Due => ColumnIdentifier::Due,
        SortColumn::Ease => ColumnIdentifier::Ease,
        SortColumn::Lapses => ColumnIdentifier::Lapses,
        SortColumn::Interval => ColumnIdentifier::Interval,
        SortColumn::NoteCreation => ColumnIdentifier::NoteCreation,
        SortColumn::NoteMod => ColumnIdentifier::NoteMod,
        SortColumn::NoteType => ColumnIdentifier::Notetype,
        SortColumn::OriginalPosition => ColumnIdentifier::OriginalPosition,
        SortColumn::Question => ColumnIdentifier::Question,
        SortColumn::Reps => ColumnIdentifier::Reps,
        SortColumn::SortField => ColumnIdentifier::SortField,
        SortColumn::Tags => ColumnIdentifier::Tags,
        SortColumn::Stability => ColumnIdentifier::Stability,
        SortColumn::Difficulty => ColumnIdentifier::Difficulty,
        SortColumn::Retrievability => ColumnIdentifier::Retrievability,
    }
}

impl FromSpecImpl<SortColumn> for ColumnIdentifier {
    open spec fn obeys_from_spec() -> bool {
        true
    }

    open spec fn from_spec(value: SortColumn) -> ColumnIdentifier {
        column_of(value)
    }
}

/// The direction in which the card browser sorts.
#[derive(Debug, Clone, Copy, PartialEq, Eq)]
pub enum SortDirection {
    Ascending,
    Descending,
}

impl From<SortDirection> for SortOrder {
    fn from(value: SortDirection) -> (r: SortOrder) {
        match value {
            SortDirection::Ascending => SortOrder::Ascending,
            SortDirection::Descending => SortOrder::Descending,
        }
    }
}

/// The order of the card browser that `direction` stands for.
pub open spec fn order_of(value: SortDirection) -> SortOrder {
    match value {
        SortDirection::Ascending => SortOrder::Ascending,
        SortDirection::Descending => SortOrder::Descending,
    }
}

impl FromSpecImpl<SortDirection> for SortOrder {
    open spec fn obeys_from_spec() -> bool {
        true
    }

    open spec fn from_spec(value: SortDirection) -> SortOrder {
        order_of(value)
    }
}

/// The media of kind `kind` among `media`, in their order.
pub open spec fn of_kind(media: Seq<FieldMediaView>, kind: MediaType) -> Seq<FieldMediaView>
    decreases media.len(),
{
    if media.len() == 0 {
        Seq::empty()
    } else if media.last().media.media_type == kind {
        of_kind(media.drop_last(), kind).push(media.last())
    } else {
        of_kind(media.drop_last(), kind)
    }
}

/// `dto` says what `m` is: the one part of the source that is given, the
/// file name, and the one field in which the file is shown.
pub open spec fn describes(dto: Media, m: FieldMediaView) -> bool {
    &&& optional_text(dto.path) == path_of(m.media.source)
    &&& optional_text(dto.url) == url_of(m.media.source)
    &&& optional_text(dto.data) == data_of(m.media.source)
    &&& dto.filename@ == m.media.filename
    &&& texts(dto.fields@) == seq![m.field]
}

/// `dtos` say, one by one and in order, what `media` are.
pub open spec fn describe_all(dtos: Seq<Media>, media: Seq<FieldMediaView>) -> bool {
    dtos.len() == media.len() && forall|i: int|
        0 <= i < dtos.len() ==> describes(#[trigger] dtos[i], media[i])
}

/// The scope as the service takes it.
pub open spec fn scope_of(scope: Option<DuplicateScope>) -> Option<DuplicateScopeDto> {
    match scope {
        Some(DuplicateScope::Deck) => Some(DuplicateScopeDto::Deck),
        Some(DuplicateScope::Collection) => Some(DuplicateScopeDto::Collection),
        None => None,
    }
}

/// The numbers of a list of note identifiers.
pub open spec fn note_numbers(ids: Seq<NoteId>) -> Seq<u64> {
    ids.map_values(|id: NoteId| id.0)
}

/// The numbers of a list of card identifiers.
pub open spec fn card_numbers(ids: Seq<CardId>) -> Seq<u64> {
    ids.map_values(|id: CardId| id.0)
}

/// The note identifiers that a list of numbers stands for.
pub open spec fn note_ids_of(numbers: Seq<u64>) -> Seq<NoteId> {
    numbers.map_values(|n: u64| NoteId(n))
}

/// What the service is told of one media file of a note.
pub fn media_dto(field_media: &FieldMedia) -> (r: Media)
    ensures
        describes(r, field_media@),
{
    let source = field_media.media().source();
    let mut fields: Vec<String> = Vec::new();
    fields.push(String::from_str(field_media.field()));
    assert(texts(fields@) =~= seq![field_media@.field]);
    Media {
        path: path_part(source),
        url: url_part(source),
        data: data_part(source),
        filename: String::from_str(field_media.media().filename()),
        fields,
    }
}

/// The numbers of note identifiers, in the same order.
pub fn raw_note_ids(ids: &[NoteId]) -> (r: Vec<u64>)
    ensures
        r@ == note_numbers(ids@),
{
    let mut r: Vec<u64> = Vec::new();
    let mut i: usize = 0;
    while i < ids.len()
        invariant
            i <= ids.len(),
            r@.len() == i,
            forall|k: int| 0 <= k < i ==> r@[k] == ids@[k].0,
        decreases ids.len() - i,
    {
        r.push(ids[i].0);
        i += 1;
    }
    assert(r@ =~= note_numbers(ids@));
    r
}

/// The numbers of card identifiers, in the same order.
pub fn raw_card_ids(ids: &[CardId]) -> (r: Vec<u64>)
    ensures
        r@ == card_numbers(ids@),
{
    let mut r: Vec<u64> = Vec::new();
    let mut i: usize = 0;
    while i < ids.len()
        invariant
            i <= ids.len(),
            r@.len() == i,
            forall|k: int| 0 <= k < i ==> r@[k] == ids@[k].0,
        decreases ids.len() - i,
    {
        r.push(ids[i].0);
        i += 1;
    }
    assert(r@ =~= card_numbers(ids@));
    r
}

/// One note identifier for every number, in the same order.
pub fn note_ids_from(numbers: &Vec<u64>) -> (r: Vec<NoteId>)
    ensures
        r@ == note_ids_of(numbers@),
{
    let mut r: Vec<NoteId> = Vec::new();
    let mut i: usize = 0;
    while i < numbers.len()
        invariant
            i <= numbers.len(),
            r@.len() == i,
            forall|k: int| 0 <= k < i ==> r@[k] == NoteId(numbers@[k]),
        decreases numbers.len() - i,
    {
        r.push(NoteId(numbers[i]));
        i += 1;
    }
    assert(r@ =~= note_ids_of(numbers@));
    r
}

/// The version that a number stands for; a number that is too large for a
/// version is a failure.
pub fn version_from(number: u64) -> (r: Result<u16, AnkiError>)
    ensures
        r is Ok <==> number <= u16::MAX,
        r matches Ok(v) ==> v == number,
        r matches Err(e) ==> e@ == AnkiErrorView::JsonError(
            "The version is not a 16-bit number"@,
        ),
{
    if number <= 65535 {
        Ok(number as u16)
    } else {
        Err(AnkiError::JsonError(String::from_str("The version is not a 16-bit number")))
    }
}

/// What is sent to show a search in the card browser.
pub fn browse_params(query: &str, reorder_cards: Option<CardsReordering>) -> (r: GuiBrowseParams)
    ensures
        r.query@ == query@,
        r.reorder_cards == reorder_cards,
{
    GuiBrowseParams { query: String::from_str(query), reorder_cards }
}

/// What is sent to show a search in the card browser, sorted by `column` in
/// the direction `sort_direction`.
pub fn browse_sorted_params(query: &str, column: SortColumn, sort_direction: SortDirection) -> (r:
    GuiBrowseParams)
    ensures
        r.query@ == query@,
        r.reorder_cards == Some(
            CardsReordering {
                order: order_of(sort_direction),
                column_id: column_of(column),
            },
        ),
{
    browse_params(
        query,
        Some(
            CardsReordering {
                order: SortOrder::from(sort_direction),
                column_id: ColumnIdentifier::from(column),
            },
        ),
    )
}

/// `dto` says what a note is that is added to a deck: the names of deck
/// and model, the contents and tags of the note, how duplicates are dealt
/// with, and the media parted by kind, each kind in the order of the note.
pub open spec fn describes_note(
    dto: NoteDto,
    deck: DeckView,
    note: NoteView,
    allow_duplicate: bool,
    duplicate_scope: Option<DuplicateScope>,
) -> bool {
    &&& dto.deck_name@ == deck.name
    &&& dto.model_name@ == note.model.name
    &&& pair_texts(dto.fields@) == note.field_values
    &&& texts(dto.tags@) == note.tags
    &&& dto.options.allow_duplicate == allow_duplicate
    &&& dto.options.duplicate_scope == scope_of(duplicate_scope)
    &&& dto.options.duplicate_scope_options is None
    &&& describe_all(dto.audio@, of_kind(note.media, MediaType::Audio))
    &&& describe_all(dto.video@, of_kind(note.media, MediaType::Video))
    &&& describe_all(dto.picture@, of_kind(note.media, MediaType::Image))
}

/// What is sent is the note that `describes_note` describes.
pub open spec fn sends_note(
    params: Option<Params>,
    deck: DeckView,
    note: NoteView,
    allow_duplicate: bool,
    duplicate_scope: Option<DuplicateScope>,
) -> bool {
    match params {
        Some(Params::AddNote(p)) => describes_note(
            p.note,
            deck,
            note,
            allow_duplicate,
            duplicate_scope,
        ),
        _ => false,
    }
}

/// What is sent is a search for notes with the text `query`.
pub open spec fn sends_note_query(params: Option<Params>, query: Seq<char>) -> bool {
    match params {
        Some(Params::FindNotes(p)) => p.query@ == query,
        _ => false,
    }
}

/// What is sent is a search for the card browser with the text `query`,
/// to be shown in the order `reorder`.
pub open spec fn sends_browse(
    params: Option<Params>,
    query: Seq<char>,
    reorder: Option<CardsReordering>,
) -> bool {
    match params {
        Some(Params::GuiBrowse(p)) => p.query@ == query && p.reorder_cards == reorder,
        _ => false,
    }
}

/// What is sent are the notes with the numbers `numbers`, to be deleted.
pub open spec fn sends_notes(params: Option<Params>, numbers: Seq<u64>) -> bool {
    match params {
        Some(Params::DeleteNotes(p)) => p.notes@ == numbers,
        _ => false,
    }
}

/// What is sent are the cards with the numbers `numbers`.
pub open spec fn sends_cards(params: Option<Params>, numbers: Seq<u64>) -> bool {
    match params {
        Some(Params::CardIds(p)) => p.cards@ == numbers,
        _ => false,
    }
}

/// What is sent are the cards with the numbers `numbers` and the number
/// `flag` of a flag.
pub open spec fn sends_flag(params: Option<Params>, numbers: Seq<u64>, flag: nat) -> bool {
    match params {
        Some(Params::SetFlag(p)) => p.cards@ == numbers && p.flag == flag,
        _ => false,
    }
}

/// What is sent is the number `note` of a note.
pub open spec fn sends_note_id(params: Option<Params>, note: u64) -> bool {
    match params {
        Some(Params::NoteId(p)) => p.note == note,
        _ => false,
    }
}

/// What is sent are the contents `fields` for the note with the number
/// `note`.
pub open spec fn sends_update(
    params: Option<Params>,
    note: u64,
    fields: Seq<(Seq<char>, Seq<char>)>,
) -> bool {
    match params {
        Some(Params::UpdateNote(p)) => p.id == note && pair_texts(p.fields@) == fields,
        _ => false,
    }
}

/// `r` is what an answer gives that is read as the version of the service:
/// the number where it fits in 16 bits, a failure where it does not or
/// where the result has another shape, and the failure of the sender as it
/// came.
pub open spec fn reads_version(
    answer: Result<Reply, AnkiError>,
    r: Result<u16, AnkiError>,
) -> bool {
    match answer {
        Ok(Reply::Number(n)) => if n <= u16::MAX {
            r matches Ok(v) && v == n
        } else {
            r matches Err(e) && e@ == AnkiErrorView::JsonError(
                "The version is not a 16-bit number"@,
            )
        },
        Ok(_) => r matches Err(e) && e@ == unexpected_shape(),
        Err(err) => r matches Err(e) && e == err,
    }
}

/// `r` is what an answer gives that is read as the identifier of a note.
pub open spec fn reads_note_id(
    answer: Result<Reply, AnkiError>,
    r: Result<NoteId, AnkiError>,
) -> bool {
    match answer {
        Ok(Reply::Number(n)) => r matches Ok(id) && id == NoteId(n),
        Ok(_) => r matches Err(e) && e@ == unexpected_shape(),
        Err(err) => r matches Err(e) && e == err,
    }
}

/// `r` is what an answer gives that is read as identifiers of notes: one
/// for every number, in the same order.
pub open spec fn reads_note_ids(
    answer: Result<Reply, AnkiError>,
    r: Result<Vec<NoteId>, AnkiError>,
) -> bool {
    match answer {
        Ok(Reply::Numbers(v)) => r matches Ok(ids) && ids@ == note_ids_of(v@),
        Ok(_) => r matches Err(e) && e@ == unexpected_shape(),
        Err(err) => r matches Err(e) && e == err,
    }
}

/// The client for cards and notes.
pub struct CardClient<S: RequestSender> {
    sender: S,
}

impl<S: RequestSender> CardClient<S> {
    /// The sender through which the client talks.
    pub closed spec fn sender(self) -> S {
        self.sender
    }

    /// The client's sender hands back `answer` for the action named
    /// `action` with `params`, asked for in the shape `expect`.
    pub open spec fn asked(
        &self,
        action: Seq<char>,
        params: Option<Params>,
        expect: ReplyKind,
        answer: Result<Reply, AnkiError>,
    ) -> bool {
        self.sender().answers(action, params, expect, answer)
    }

    /// `r` is the version that the client reads from what its sender
    /// answers when it is asked for the version.
    pub open spec fn got_version(&self, r: Result<u16, AnkiError>) -> bool {
        exists|answer: Result<Reply, AnkiError>|
            #[trigger] self.asked("version"@, None, ReplyKind::Number, answer) && reads_version(
                answer,
                r,
            )
    }

    /// The client that talks through `sender`.
    pub fn new(sender: S) -> (r: CardClient<S>)
        ensures
            r.sender() == sender,
    {
        CardClient { sender }
    }

    /// Hands a request to the sender and gives what it answers.
    fn ask(&self, action: &str, params: Option<Params>, expect: ReplyKind) -> (r: Result<
        Reply,
        AnkiError,
    >)
        ensures
            self.asked(action@, params, expect, r),
    {
        self.sender.send(action, params, expect)
    }

    /// The version of the service: the sender is asked for `version`
    /// without parameters, and the number that it answers is the version
    /// where it fits in 16 bits.
    pub fn get_version(&self) -> (r: Result<u16, AnkiError>)
        ensures
            self.got_version(r),
    {
        let reply = self.ask("version", None, ReplyKind::Number);
        let number = expect_number(reply)?;
        version_from(number)
    }

    /// Adds `note` to `deck` and gives the identifier of the new note: the
    /// sender is asked for `addNote` with what
    /// [`CardClient::prepare_note_dto`] makes, and the number that it
    /// answers is the identifier.
    pub fn add_note(
        &self,
        deck: &Deck,
        note: Note,
        allow_duplicate: bool,
        duplicate_scope: Option<DuplicateScope>,
    ) -> (r: Result<NoteId, AnkiError>)
        ensures
            exists|params: Option<Params>, answer: Result<Reply, AnkiError>|
                #[trigger] self.asked("addNote"@, params, ReplyKind::Number, answer) && sends_note(
                    params,
                    deck@,
                    note@,
                    allow_duplicate,
                    duplicate_scope,
                ) && reads_note_id(answer, r),
    {
        let note_dto = self.prepare_note_dto(deck, &note, allow_duplicate, duplicate_scope);
        let params = AddNoteParams { note: note_dto };
        let reply = self.ask("addNote", Some(Params::AddNote(params)), ReplyKind::Number);
        let id = expect_number(reply)?;
        Ok(NoteId(id))
    }

    /// The cards that fit `query`: the sender is asked for `findCards` with
    /// the text of the query, and the numbers that it answers are the
    /// cards.
    pub fn find(&self, query: &Query) -> (r: Result<Vec<CardId>, AnkiError>)
        ensures
            exists|params: Option<Params>, answer: Result<Reply, AnkiError>|
                #[trigger] self.asked("findCards"@, params, ReplyKind::Numbers, answer)
                    && sends_card_query(params, query@) && reads_card_ids(answer, r),
    {
        let params = FindCardsParams { query: query.to_string() };
        let reply = self.ask("findCards", Some(Params::FindCards(params)), ReplyKind::Numbers);
        let ids = expect_numbers(reply)?;
        Ok(card_ids_from(&ids))
    }

    /// Shows the cards that fit `query` in the card browser and gives them:
    /// the sender is asked for `guiBrowse` with the query and no order, and
    /// the numbers that it answers are the cards.
    pub fn browse(&self, query: &str) -> (r: Result<Vec<CardId>, AnkiError>)
        ensures
            exists|params: Option<Params>, answer: Result<Reply, AnkiError>|
                #[trigger] self.asked("guiBrowse"@, params, ReplyKind::Numbers, answer)
                    && sends_browse(params, query@, None) && reads_card_ids(answer, r),
    {
        let params = browse_params(query, None);
        let reply = self.ask("guiBrowse", Some(Params::GuiBrowse(params)), ReplyKind::Numbers);
        let ids = expect_numbers(reply)?;
        Ok(card_ids_from(&ids))
    }

    /// Shows the cards that fit `query` in the card browser, sorted, and
    /// gives them: the sender is asked for `guiBrowse` with the query and
    /// the order by `column` in the direction `sort_direction`, and the
    /// numbers that it answers are the cards.
    pub fn browse_sorted(&self, query: &str, column: SortColumn, sort_direction: SortDirection) -> (r:
        Result<Vec<CardId>, AnkiError>)
        ensures
            exists|params: Option<Params>, answer: Result<Reply, AnkiError>|
                #[trigger] self.asked("guiBrowse"@, params, ReplyKind::Numbers, answer)
                    && sends_browse(
                    params,
                    query@,
                    Some(
                        CardsReordering {
                            order: order_of(sort_direction),
                            column_id: column_of(column),
                        },
                    ),
                ) && reads_card_ids(answer, r),
    {
        let params = browse_sorted_params(query, column, sort_direction);
        let reply = self.ask("guiBrowse", Some(Params::GuiBrowse(params)), ReplyKind::Numbers);
        let ids = expect_numbers(reply)?;
        Ok(card_ids_from(&ids))
    }

    /// Deletes the notes: the sender is asked for `deleteNotes` with the
    /// numbers of the notes, and succeeds where it answers no result.
    pub fn delete_notes(&self, note_ids: &[NoteId]) -> (r: Result<(), AnkiError>)
        ensures
            exists|params: Option<Params>, answer: Result<Reply, AnkiError>|
                #[trigger] self.asked("deleteNotes"@, params, ReplyKind::Nothing, answer)
                    && sends_notes(params, note_numbers(note_ids@)) && reads_nothing(answer, r),
    {
        let params = DeleteNotesParams { notes: raw_note_ids(note_ids) };
        let reply = self.ask("deleteNotes", Some(Params::DeleteNotes(params)), ReplyKind::Nothing);
        expect_nothing(reply)
    }

    /// Suspends the cards: the sender is asked for `suspend` with the
    /// numbers of the cards, and succeeds where it answers no result.
    pub fn suspend_cards(&self, card_ids: &[CardId]) -> (r: Result<(), AnkiError>)
        ensures
            exists|params: Option<Params>, answer: Result<Reply, AnkiError>|
                #[trigger] self.asked("suspend"@, params, ReplyKind::Nothing, answer)
                    && sends_cards(params, card_numbers(card_ids@)) && reads_nothing(answer, r),
    {
        let params = CardIdsParams { cards: raw_card_ids(card_ids) };
        let reply = self.ask("suspend", Some(Params::CardIds(params)), ReplyKind::Nothing);
        expect_nothing(reply)
    }

    /// Takes the suspension of the cards back: the sender is asked for
    /// `unsuspend` with the numbers of the cards, and succeeds where it
    /// answers no result.
    pub fn unsuspend_cards(&self, card_ids: &[CardId]) -> (r: Result<(), AnkiError>)
        ensures
            exists|params: Option<Params>, answer: Result<Reply, AnkiError>|
                #[trigger] self.asked("unsuspend"@, params, ReplyKind::Nothing, answer)
                    && sends_cards(params, card_numbers(card_ids@)) && reads_nothing(answer, r),
    {
        let params = CardIdsParams { cards: raw_card_ids(card_ids) };
        let reply = self.ask("unsuspend", Some(Params::CardIds(params)), ReplyKind::Nothing);
        expect_nothing(reply)
    }

    /// Gives the cards the flag `flag`: the sender is asked for `setFlag`
    /// with the numbers of the cards and the number of the flag, and
    /// succeeds where it answers no result.
    pub fn set_flag(&self, card_ids: &[CardId], flag: Flag) -> (r: Result<(), AnkiError>)
        ensures
            exists|params: Option<Params>, answer: Result<Reply, AnkiError>|
                #[trigger] self.asked("setFlag"@, params, ReplyKind::Nothing, answer)
                    && sends_flag(params, card_numbers(card_ids@), flag_number(flag))
                    && reads_nothing(answer, r),
    {
        let params = SetFlagParams { cards: raw_card_ids(card_ids), flag: flag.number() };
        let reply = self.ask("setFlag", Some(Params::SetFlag(params)), ReplyKind::Nothing);
        expect_nothing(reply)
    }

    /// What the service knows of the note: the sender is asked for
    /// `noteInfo` with the number of the note, and what it answers is given
    /// as it came.
    pub fn get_note_info(&self, note_id: NoteId) -> (r: Result<NoteInfo, AnkiError>)
        ensures
            exists|params: Option<Params>, answer: Result<Reply, AnkiError>|
                #[trigger] self.asked("noteInfo"@, params, ReplyKind::Note, answer)
                    && sends_note_id(params, note_id.0) && reads_note(answer, r),
    {
        let params = NoteIdParam { note: note_id.0 };
        let reply = self.ask("noteInfo", Some(Params::NoteId(params)), ReplyKind::Note);
        expect_note(reply)
    }

    /// The notes that fit `query`: the sender is asked for `findNotes` with
    /// the text of the query, and the numbers that it answers are the
    /// notes.
    pub fn find_notes(&self, query: &Query) -> (r: Result<Vec<NoteId>, AnkiError>)
        ensures
            exists|params: Option<Params>, answer: Result<Reply, AnkiError>|
                #[trigger] self.asked("findNotes"@, params, ReplyKind::Numbers, answer)
                    && sends_note_query(params, query@) && reads_note_ids(answer, r),
    {
        let params = FindNotesParams { query: query.to_string() };
        let reply = self.ask("findNotes", Some(Params::FindNotes(params)), ReplyKind::Numbers);
        let ids = expect_numbers(reply)?;
        Ok(note_ids_from(&ids))
    }

    /// Writes new contents into fields of the note: the sender is asked for
    /// `updateNote` with the number of the note and the contents by field
    /// name, and succeeds where it answers no result.
    pub fn update_note_fields(&self, note_id: NoteId, fields: FieldValues) -> (r: Result<
        (),
        AnkiError,
    >)
        ensures
            exists|params: Option<Params>, answer: Result<Reply, AnkiError>|
                #[trigger] self.asked("updateNote"@, params, ReplyKind::Nothing, answer)
                    && sends_update(params, note_id.0, fields@) && reads_nothing(answer, r),
    {
        let params = UpdateNoteFieldsParams { id: note_id.value(), fields: fields.to_vec() };
        let reply = self.ask("updateNote", Some(Params::UpdateNote(params)), ReplyKind::Nothing);
        expect_nothing(reply)
    }

    /// What the service is told of a note that is added to `deck`: the
    /// names of deck and model, the contents and tags of the note, and its
    /// media parted by kind, each kind in the order of the note. How far the
    /// search for duplicates reaches is never said.
    pub fn prepare_note_dto(
        &self,
        deck: &Deck,
        note: &Note,
        allow_duplicate: bool,
        duplicate_scope: Option<DuplicateScope>,
    ) -> (r: NoteDto)
        ensures
            r.deck_name@ == deck@.name,
            r.model_name@ == note@.model.name,
            pair_texts(r.fields@) == note@.field_values,
            texts(r.tags@) == note@.tags,
            r.options.allow_duplicate == allow_duplicate,
            r.options.duplicate_scope == scope_of(duplicate_scope),
            r.options.duplicate_scope_options is None,
            describe_all(r.audio@, of_kind(note@.media, MediaType::Audio)),
            describe_all(r.video@, of_kind(note@.media, MediaType::Video)),
            describe_all(r.picture@, of_kind(note@.media, MediaType::Image)),
            describes_note(r, deck@, note@, allow_duplicate, duplicate_scope),
    {
        let mut audio: Vec<Media> = Vec::new();
        let mut video: Vec<Media> = Vec::new();
        let mut picture: Vec<Media> = Vec::new();
        let media = note.media();
        let mut i: usize = 0;
        while i < media.len()
            invariant
                i <= media.len(),
                crate::models::media::media_views(media@) == note@.media,
                describe_all(audio@, of_kind(note@.media.take(i as int), MediaType::Audio)),
                describe_all(video@, of_kind(note@.media.take(i as int), MediaType::Video)),
                describe_all(picture@, of_kind(note@.media.take(i as int), MediaType::Image)),
            decreases media.len() - i,
        {
            let dto = media_dto(&media[i]);
            proof {
                let t = note@.media.take(i + 1);
                assert(t.drop_last() == note@.media.take(i as int));
                assert(t.last() == media@[i as int]@);
            }
            match media[i].media().media_type() {
                MediaType::Audio => audio.push(dto),
                MediaType::Video => video.push(dto),
                MediaType::Image => picture.push(dto),
            }
            i += 1;
        }
        proof {
            assert(note@.media.take(media@.len() as int) == note@.media);
        }
        let scope = match duplicate_scope {
            Some(s) => Some(DuplicateScopeDto::from(s)),
            None => None,
        };
        NoteDto {
            deck_name: String::from_str(deck.name()),
            model_name: String::from_str(note.model().name()),
            fields: note.field_values().to_vec(),
            options: AddNoteOptions {
                allow_duplicate,
                duplicate_scope: scope,
                duplicate_scope_options: None,
            },
            tags: note.tags().to_vec(),
            audio,
            video,
            picture,
        }
    }
}

} // verus!
