//! The shapes of what is sent to the remote service and of what it answers.

use vstd::prelude::*;

verus! {

/// The order in which the card browser lists what it found.
#[derive(Debug, Clone, Copy, PartialEq, Eq)]
pub enum SortOrder {
    Ascending,
    Descending,
}

/// A column of the card browser.
#[derive(Debug, Clone, Copy, PartialEq, Eq)]
pub enum ColumnIdentifier {
    Custom,
    Answer,
    CardMod,
    Cards,
    Deck,
    Due,
    Ease,
    Lapses,
    Interval,
    NoteCreation,
    NoteMod,
    Notetype,
    OriginalPosition,
    Question,
    Reps,
    SortField,
    Tags,
    Stability,
    Difficulty,
    Retrievability,
}

/// How the card browser is to sort.
#[derive(Debug, Clone, Copy, PartialEq, Eq)]
pub struct CardsReordering {
    pub order: SortOrder,
    pub column_id: ColumnIdentifier,
}

/// A search for cards.
#[derive(Debug, Clone, PartialEq, Eq)]
pub struct FindCardsParams {
    pub query: String,
}

/// A search for notes.
#[derive(Debug, Clone, PartialEq, Eq)]
pub struct FindNotesParams {
    pub query: String,
}

/// A search shown in the card browser.
#[derive(Debug, Clone, PartialEq, Eq)]
pub struct GuiBrowseParams {
    pub query: String,
    pub reorder_cards: Option<CardsReordering>,
}

/// The notes to delete.
#[derive(Debug, Clone, PartialEq, Eq)]
pub struct DeleteNotesParams {
    pub notes: Vec<u64>,
}

/// The cards that an action is about.
#[derive(Debug, Clone, PartialEq, Eq)]
pub struct CardIdsParams {
    pub cards: Vec<u64>,
}

/// The cards to flag and the number of the flag.
#[derive(Debug, Clone, PartialEq, Eq)]
pub struct SetFlagParams {
    pub cards: Vec<u64>,
    pub flag: u8,
}

/// The note that an action is about.
#[derive(Debug, Clone, PartialEq, Eq)]
pub struct NoteIdParam {
    pub note: u64,
}

/// New contents for fields of a note, by field name.
#[derive(Debug, Clone, PartialEq, Eq)]
pub struct UpdateNoteFieldsParams {
    pub id: u64,
    pub fields: Vec<(String, String)>,
}

/// The deck to create.
#[derive(Debug, Clone, PartialEq, Eq)]
pub struct CreateDeckParams {
    pub deck: String,
}

/// The decks to delete, and whether their cards go with them.
#[derive(Debug, Clone, PartialEq, Eq)]
pub struct DeleteDeckParams {
    pub decks: Vec<String>,
    pub cards_too: bool,
}

/// The decks whose counts are asked for.
#[derive(Debug, Clone, PartialEq, Eq)]
pub struct DeckStatsParams {
    pub decks: Vec<String>,
}

/// A media file to store. Exactly one of path, address and data is given.
#[derive(Debug, Clone, PartialEq, Eq)]
pub struct StoreMediaFileParams {
    pub path: Option<String>,
    pub url: Option<String>,
    pub data: Option<String>,
    pub filename: String,
    pub delete_existing: bool,
}

/// The media file to fetch.
#[derive(Debug, Clone, PartialEq, Eq)]
pub struct RetrieveMediaParams {
    pub filename: String,
}

/// The media file to delete.
#[derive(Debug, Clone, PartialEq, Eq)]
pub struct DeleteMediaParams {
    pub filename: String,
}

/// The model whose field names are asked for.
#[derive(Debug, Clone, PartialEq, Eq)]
pub struct ModelFieldNamesParams {
    pub model_name: String,
}

/// The models that are asked for, by identifier.
#[derive(Debug, Clone, PartialEq, Eq)]
pub struct FindModelsByIdParams {
    pub model_ids: Vec<u64>,
}

/// The model whose templates are asked for.
#[derive(Debug, Clone, PartialEq, Eq)]
pub struct ModelTemplatesParams {
    pub model_name: String,
}

/// The model whose styling is asked for.
#[derive(Debug, Clone, PartialEq, Eq)]
pub struct ModelStylingParams {
    pub model_name: String,
}

/// New styling for a model.
#[derive(Debug, Clone, PartialEq, Eq)]
pub struct UpdateModelStylingParams {
    pub model: String,
    pub css: String,
}

/// The two sides of a card template.
#[derive(Debug, Clone, PartialEq, Eq)]
pub struct CardTemplate {
    pub front: String,
    pub back: String,
}

/// A model to create.
#[derive(Debug, Clone, PartialEq, Eq)]
pub struct CreateModelParams {
    pub model_name: String,
    pub in_order_fields: Vec<String>,
    pub css: String,
    /// The templates by name, in the order in which they were given.
    pub card_templates: Vec<(String, CardTemplate)>,
}

/// Where duplicates of a new note are looked for.
#[derive(Debug, Clone, Copy, PartialEq, Eq)]
pub enum DuplicateScopeDto {
    Deck,
    Collection,
}

/// How far the search for duplicates reaches.
#[derive(Debug, Clone, PartialEq, Eq)]
pub struct DuplicateScopeOptionsDto {
    pub deck_name: Option<String>,
    pub check_children: bool,
    pub check_all_models: bool,
}

/// How a new note is added.
#[derive(Debug, Clone, PartialEq, Eq)]
pub struct AddNoteOptions {
    pub allow_duplicate: bool,
    pub duplicate_scope: Option<DuplicateScopeDto>,
    pub duplicate_scope_options: Option<DuplicateScopeOptionsDto>,
}

/// A media file of a new note. Exactly one of path, address and data is
/// given.
#[derive(Debug, Clone, PartialEq, Eq)]
pub struct Media {
    pub path: Option<String>,
    pub url: Option<String>,
    pub data: Option<String>,
    pub filename: String,
    /// The fields in which the file is shown.
    pub fields: Vec<String>,
}

/// A new note as the service takes it.
#[derive(Debug, Clone, PartialEq, Eq)]
pub struct NoteDto {
    pub deck_name: String,
    pub model_name: String,
    /// The contents by field name.
    pub fields: Vec<(String, String)>,
    pub options: AddNoteOptions,
    pub tags: Vec<String>,
    pub audio: Vec<Media>,
    pub video: Vec<Media>,
    pub picture: Vec<Media>,
}

/// The note to add.
#[derive(Debug, Clone, PartialEq, Eq)]
pub struct AddNoteParams {
    pub note: NoteDto,
}

/// What a request carries besides the name of its action.
#[derive(Debug, Clone, PartialEq, Eq)]
pub enum Params {
    FindCards(FindCardsParams),
    FindNotes(FindNotesParams),
    GuiBrowse(GuiBrowseParams),
    DeleteNotes(DeleteNotesParams),
    CardIds(CardIdsParams),
    SetFlag(SetFlagParams),
    NoteId(NoteIdParam),
    UpdateNote(UpdateNoteFieldsParams),
    CreateDeck(CreateDeckParams),
    DeleteDeck(DeleteDeckParams),
    DeckStats(DeckStatsParams),
    StoreMediaFile(StoreMediaFileParams),
    RetrieveMedia(RetrieveMediaParams),
    DeleteMedia(DeleteMediaParams),
    ModelFieldNames(ModelFieldNamesParams),
    FindModelsById(FindModelsByIdParams),
    ModelTemplates(ModelTemplatesParams),
    ModelStyling(ModelStylingParams),
    UpdateModelStyling(UpdateModelStylingParams),
    CreateModel(CreateModelParams),
    AddNote(AddNoteParams),
}

/// The shape in which the answer to a request is expected.
#[derive(Debug, Clone, Copy, PartialEq, Eq)]
pub enum ReplyKind {
    Nothing,
    Number,
    Numbers,
    Text,
    Texts,
    NamesAndIds,
    Note,
    DeckConfigs,
    DeckTree,
    DeckStats,
    Models,
}

/// The result that the service sent, decoded.
#[derive(Debug)]
pub enum Reply {
    /// No result.
    Nothing,
    /// One number.
    Number(u64),
    /// A list of numbers.
    Numbers(Vec<u64>),
    /// One text.
    Text(String),
    /// A list of texts.
    Texts(Vec<String>),
    /// Names with identifiers, in the order in which the answer listed them.
    NamesAndIds(Vec<(String, u64)>),
    /// What is known of a note.
    Note(NoteInfo),
    /// The option groups of the collection.
    DeckConfigs(DeckConfigsResult),
    /// The tree of decks.
    DeckTree(Vec<DeckTreeNode>),
    /// Counts by deck, in the order in which the answer listed them.
    DeckStats(Vec<(String, DeckStatsDto)>),
    /// Models in full.
    Models(Vec<ModelDetails>),
}

impl Reply {
    /// The shape of the reply.
    pub open spec fn kind(self) -> ReplyKind {
        match self {
            Reply::Nothing => ReplyKind::Nothing,
            Reply::Number(_) => ReplyKind::Number,
            Reply::Numbers(_) => ReplyKind::Numbers,
            Reply::Text(_) => ReplyKind::Text,
            Reply::Texts(_) => ReplyKind::Texts,
            Reply::NamesAndIds(_) => ReplyKind::NamesAndIds,
            Reply::Note(_) => ReplyKind::Note,
            Reply::DeckConfigs(_) => ReplyKind::DeckConfigs,
            Reply::DeckTree(_) => ReplyKind::DeckTree,
            Reply::DeckStats(_) => ReplyKind::DeckStats,
            Reply::Models(_) => ReplyKind::Models,
        }
    }
}

/// What the service tells about one note.
#[derive(Debug, Clone, PartialEq, Eq)]
pub struct NoteInfo {
    pub note_id: u64,
    pub model_name: String,
    pub tags: Vec<String>,
    /// The fields by name, in the order in which the answer listed them.
    pub fields: Vec<(String, FieldInfo)>,
}

/// The content of one field of a note and the field's place in the model.
#[derive(Debug, Clone, PartialEq, Eq)]
pub struct FieldInfo {
    pub value: String,
    pub order: u32,
}

/// The counts of one deck as the service reports them.
#[derive(Debug, Clone, PartialEq, Eq)]
pub struct DeckStatsDto {
    pub deck_id: u64,
    pub new_count: u32,
    pub learn_count: u32,
    pub review_count: u32,
    pub total_in_deck: u32,
}

/// The option groups of the collection as the service reports them.
#[derive(Debug, Clone, PartialEq, Eq)]
pub struct DeckConfigsResult {
    pub current_deck_id: u64,
    pub current_config_id: u64,
    pub all_config_id: Vec<u64>,
    pub config_list: Vec<DeckConfigDto>,
}

/// One option group as the service reports it.
#[derive(Debug, Clone, PartialEq, Eq)]
pub struct DeckConfigDto {
    pub id: u64,
    pub name: String,
    pub reuse_if_possible: bool,
    pub disable_auto_qe: bool,
}

/// A deck in the tree of decks, with the decks below it.
#[derive(Debug)]
pub struct DeckTreeNode {
    pub id: u64,
    pub name: String,
    pub level: u32,
    pub collapsed: bool,
    pub has_children: bool,
    pub children: Vec<DeckTreeNode>,
}

/// A model in full, as the service reports it.
#[derive(Debug, Clone, PartialEq, Eq)]
pub struct ModelDetails {
    pub id: u64,
    pub name: String,
    pub type_: u64,
    pub mod_: u64,
    pub usn: i64,
    pub sortf: i64,
    pub did: Option<i64>,
    pub tmpls: Vec<Template>,
    pub flds: Vec<Field>,
    pub css: String,
    pub latex_pre: String,
    pub latex_post: String,
    pub latexsvg: bool,
    pub req: Vec<Requirement>,
    pub original_stock_kind: i64,
}

/// A card template of a model, as the service reports it.
#[derive(Debug, Clone, PartialEq, Eq)]
pub struct Template {
    pub name: String,
    pub ord: i64,
    pub qfmt: String,
    pub afmt: String,
    pub bqfmt: String,
    pub bafmt: String,
    pub did: Option<i64>,
    pub bfont: String,
    pub bsize: i64,
    pub id: u64,
}

/// A field of a model, as the service reports it.
#[derive(Debug, Clone, PartialEq, Eq)]
pub struct Field {
    pub name: String,
    pub ord: i64,
    pub sticky: bool,
    pub rtl: bool,
    pub font: String,
    pub size: i64,
    pub description: String,
    pub plain_text: bool,
    pub collapsed: bool,
    pub exclude_from_search: bool,
    pub id: i64,
    pub tag: Option<String>,
    pub prevent_deletion: bool,
}

/// Which fields a card of a model needs, as the service reports it.
#[derive(Debug, Clone, PartialEq, Eq)]
pub struct Requirement(pub i64, pub String, pub Vec<i64>);

} // verus!
