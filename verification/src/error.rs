//! Error values, and the classifier that turns a message of the remote
//! service into one of them.

use crate::anki_card::{AnkiModelIdentifier, NamedView};
use crate::text::{chars_of, has_prefix, str_eq, string_of};
use vstd::prelude::*;
use vstd::std_specs::convert::FromSpecImpl;

verus! {

/// A failure that the remote service reported.
#[derive(Debug, Clone, PartialEq, Eq)]
pub enum AnkiConnectError {
    /// The action is not supported by the service.
    UnsupportedAction,
    /// The field values would make an empty question.
    EmptyQuestion,
    /// The named model was not found.
    ModelNotFound(String),
    /// The named deck was not found.
    DeckNotFound(String),
    /// The note is a duplicate.
    DuplicateNote,
    /// The note is empty.
    EmptyNote,
    /// A media entry has neither data, path nor URL.
    MissingMediaField,
    /// A model with this name exists already.
    ModelNameExists,
    /// The column identifier is not valid.
    InvalidColumnId(String),
    /// The card order is not valid.
    InvalidCardOrder(String),
    /// A message that matches no known pattern, kept as it came.
    Other(String),
}

/// What an [`AnkiConnectError`] is, with texts in place of strings.
pub enum AnkiConnectErrorView {
    UnsupportedAction,
    EmptyQuestion,
    ModelNotFound(Seq<char>),
    DeckNotFound(Seq<char>),
    DuplicateNote,
    EmptyNote,
    MissingMediaField,
    ModelNameExists,
    InvalidColumnId(Seq<char>),
    InvalidCardOrder(Seq<char>),
    Other(Seq<char>),
}

impl View for AnkiConnectError {
    type V = AnkiConnectErrorView;

    open spec fn view(&self) -> AnkiConnectErrorView {
        match self {
            AnkiConnectError::UnsupportedAction => AnkiConnectErrorView::UnsupportedAction,
            AnkiConnectError::EmptyQuestion => AnkiConnectErrorView::EmptyQuestion,
            AnkiConnectError::ModelNotFound(s) => AnkiConnectErrorView::ModelNotFound(s@),
            AnkiConnectError::DeckNotFound(s) => AnkiConnectErrorView::DeckNotFound(s@),
            AnkiConnectError::DuplicateNote => AnkiConnectErrorView::DuplicateNote,
            AnkiConnectError::EmptyNote => AnkiConnectErrorView::EmptyNote,
            AnkiConnectError::MissingMediaField => AnkiConnectErrorView::MissingMediaField,
            AnkiConnectError::ModelNameExists => AnkiConnectErrorView::ModelNameExists,
            AnkiConnectError::InvalidColumnId(s) => AnkiConnectErrorView::InvalidColumnId(s@),
            AnkiConnectError::InvalidCardOrder(s) => AnkiConnectErrorView::InvalidCardOrder(s@),
            AnkiConnectError::Other(s) => AnkiConnectErrorView::Other(s@),
        }
    }
}

impl AnkiConnectErrorView {
    /// The sentence that describes the error.
    pub open spec fn message(self) -> Seq<char> {
        match self {
            AnkiConnectErrorView::UnsupportedAction => "Unsupported action"@,
            AnkiConnectErrorView::EmptyQuestion => "The field values would make an empty question"@,
            AnkiConnectErrorView::ModelNotFound(s) => "Model not found: "@ + s,
            AnkiConnectErrorView::DeckNotFound(s) => "Deck not found: "@ + s,
            AnkiConnectErrorView::DuplicateNote => "Duplicate note"@,
            AnkiConnectErrorView::EmptyNote => "Empty note"@,
            AnkiConnectErrorView::MissingMediaField => "Missing media field (provide data, path, or URL)"@,
            AnkiConnectErrorView::ModelNameExists => "Model name already exists"@,
            AnkiConnectErrorView::InvalidColumnId(s) => "Invalid column ID: "@ + s,
            AnkiConnectErrorView::InvalidCardOrder(s) => "Invalid card order: "@ + s,
            AnkiConnectErrorView::Other(s) => "Other error: "@ + s,
        }
    }
}

/// `prefix` followed by `s`.
fn prefixed(prefix: &str, s: &String) -> (r: String)
    ensures
        r@ == prefix@ + s@,
{
    let mut r = String::from_str(prefix);
    r.append(s.as_str());
    r
}

impl AnkiConnectError {
    /// The sentence that describes the error.
    pub fn message(&self) -> (r: String)
        ensures
            r@ == self@.message(),
    {
        match self {
            AnkiConnectError::UnsupportedAction => String::from_str("Unsupported action"),
            AnkiConnectError::EmptyQuestion => String::from_str(
                "The field values would make an empty question",
            ),
            AnkiConnectError::ModelNotFound(s) => prefixed("Model not found: ", s),
            AnkiConnectError::DeckNotFound(s) => prefixed("Deck not found: ", s),
            AnkiConnectError::DuplicateNote => String::from_str("Duplicate note"),
            AnkiConnectError::EmptyNote => String::from_str("Empty note"),
            AnkiConnectError::MissingMediaField => String::from_str(
                "Missing media field (provide data, path, or URL)",
            ),
            AnkiConnectError::ModelNameExists => String::from_str("Model name already exists"),
            AnkiConnectError::InvalidColumnId(s) => prefixed("Invalid column ID: ", s),
            AnkiConnectError::InvalidCardOrder(s) => prefixed("Invalid card order: ", s),
            AnkiConnectError::Other(s) => prefixed("Other error: ", s),
        }
    }
}

/// Any failure of this crate.
#[derive(Debug, Clone, PartialEq, Eq)]
pub enum AnkiError {
    /// The remote service reported a failure.
    AnkiConnectError(AnkiConnectError),
    /// The request could not be delivered; the text is the transport's own.
    HttpError(String),
    /// The answer could not be decoded.
    JsonError(String),
    /// The field does not belong to the model.
    InvalidField { field_name: String, model_name: String },
    /// An argument was refused before anything was sent.
    ValidationError(String),
    /// A failure of no other kind.
    UnknownError(String),
}

/// What an [`AnkiError`] is, with texts in place of strings.
pub enum AnkiErrorView {
    AnkiConnectError(AnkiConnectErrorView),
    HttpError(Seq<char>),
    JsonError(Seq<char>),
    InvalidField { field_name: Seq<char>, model_name: Seq<char> },
    ValidationError(Seq<char>),
    UnknownError(Seq<char>),
}

impl View for AnkiError {
    type V = AnkiErrorView;

    open spec fn view(&self) -> AnkiErrorView {
        match self {
            AnkiError::AnkiConnectError(e) => AnkiErrorView::AnkiConnectError(e@),
            AnkiError::HttpError(s) => AnkiErrorView::HttpError(s@),
            AnkiError::JsonError(s) => AnkiErrorView::JsonError(s@),
            AnkiError::InvalidField { field_name, model_name } => AnkiErrorView::InvalidField {
                field_name: field_name@,
                model_name: model_name@,
            },
            AnkiError::ValidationError(s) => AnkiErrorView::ValidationError(s@),
            AnkiError::UnknownError(s) => AnkiErrorView::UnknownError(s@),
        }
    }
}

impl AnkiErrorView {
    /// The sentence that describes the error.
    pub open spec fn message(self) -> Seq<char> {
        match self {
            AnkiErrorView::AnkiConnectError(e) => e.message(),
            AnkiErrorView::HttpError(s) => "HTTP request failed: "@ + s,
            AnkiErrorView::JsonError(s) => "JSON parsing failed: "@ + s,
            AnkiErrorView::InvalidField { field_name, model_name } => "Invalid field '"@
                + field_name + "' for model '"@ + model_name + "'"@,
            AnkiErrorView::ValidationError(s) => "Validation error: "@ + s,
            AnkiErrorView::UnknownError(s) => "Unknown error: "@ + s,
        }
    }
}

impl AnkiError {
    /// The sentence that describes the error.
    pub fn message(&self) -> (r: String)
        ensures
            r@ == self@.message(),
    {
        match self {
            AnkiError::AnkiConnectError(e) => e.message(),
            AnkiError::HttpError(s) => prefixed("HTTP request failed: ", s),
            AnkiError::JsonError(s) => prefixed("JSON parsing failed: ", s),
            AnkiError::InvalidField { field_name, model_name } => {
                let mut r = prefixed("Invalid field '", field_name);
                r.append("' for model '");
                r.append(model_name.as_str());
                r.append("'");
                r
            },
            AnkiError::ValidationError(s) => prefixed("Validation error: ", s),
            AnkiError::UnknownError(s) => prefixed("Unknown error: ", s),
        }
    }

    /// The validation error with the sentence `text`.
    pub fn validation(text: &str) -> (e: AnkiError)
        ensures
            e@ == AnkiErrorView::ValidationError(text@),
    {
        AnkiError::ValidationError(String::from_str(text))
    }
}

impl From<AnkiConnectError> for AnkiError {
    fn from(err: AnkiConnectError) -> (e: AnkiError) {
        AnkiError::AnkiConnectError(err)
    }
}

impl FromSpecImpl<AnkiConnectError> for AnkiError {
    open spec fn obeys_from_spec() -> bool {
        true
    }

    open spec fn from_spec(err: AnkiConnectError) -> AnkiError {
        AnkiError::AnkiConnectError(err)
    }
}

/// A failure in making or changing a note.
#[derive(Debug, Clone, PartialEq, Eq)]
pub enum NoteError {
    /// A required field has no value.
    MissingField(String),
    /// The field does not belong to the note's model.
    UnknownField(String),
    /// The field has empty content.
    EmptyField(String),
    /// The content would give an empty question.
    EmptyQuestion,
    /// A media entry is missing or not valid.
    InvalidMedia(String),
    /// The note would repeat an existing one.
    DuplicateNote,
    /// The note was refused for another reason.
    ValidationError(String),
    /// The content of one field was refused.
    FieldValidationError { field: String, message: String },
    /// A failure that is not about the note itself.
    AnkiError(AnkiError),
}

/// What a [`NoteError`] is, with texts in place of strings.
pub enum NoteErrorView {
    MissingField(Seq<char>),
    UnknownField(Seq<char>),
    EmptyField(Seq<char>),
    EmptyQuestion,
    InvalidMedia(Seq<char>),
    DuplicateNote,
    ValidationError(Seq<char>),
    FieldValidationError { field: Seq<char>, message: Seq<char> },
    AnkiError(AnkiErrorView),
}

impl View for NoteError {
    type V = NoteErrorView;

    open spec fn view(&self) -> NoteErrorView {
        match self {
            NoteError::MissingField(s) => NoteErrorView::MissingField(s@),
            NoteError::UnknownField(s) => NoteErrorView::UnknownField(s@),
            NoteError::EmptyField(s) => NoteErrorView::EmptyField(s@),
            NoteError::EmptyQuestion => NoteErrorView::EmptyQuestion,
            NoteError::InvalidMedia(s) => NoteErrorView::InvalidMedia(s@),
            NoteError::DuplicateNote => NoteErrorView::DuplicateNote,
            NoteError::ValidationError(s) => NoteErrorView::ValidationError(s@),
            NoteError::FieldValidationError { field, message } => {
                NoteErrorView::FieldValidationError { field: field@, message: message@ }
            },
            NoteError::AnkiError(e) => NoteErrorView::AnkiError(e@),
        }
    }
}

impl NoteErrorView {
    /// The sentence that describes the error.
    pub open spec fn message(self) -> Seq<char> {
        match self {
            NoteErrorView::MissingField(s) => "Missing required field: "@ + s,
            NoteErrorView::UnknownField(s) => "Unknown field: "@ + s,
            NoteErrorView::EmptyField(s) => "Empty content for field: "@ + s,
            NoteErrorView::EmptyQuestion => "The provided field content would result in an empty question"@,
            NoteErrorView::InvalidMedia(s) => "Invalid media: "@ + s,
            NoteErrorView::DuplicateNote => "Note would be a duplicate of an existing note"@,
            NoteErrorView::ValidationError(s) => "Note validation error: "@ + s,
            NoteErrorView::FieldValidationError { field, message } => "Field content validation error for '"@
                + field + "': "@ + message,
            NoteErrorView::AnkiError(e) => "Anki error: "@ + e.message(),
        }
    }

    /// The note error that stands for a failure of the remote service.
    pub open spec fn of_remote(err: AnkiConnectErrorView) -> NoteErrorView {
        match err {
            AnkiConnectErrorView::EmptyQuestion => NoteErrorView::EmptyQuestion,
            AnkiConnectErrorView::DuplicateNote => NoteErrorView::DuplicateNote,
            AnkiConnectErrorView::EmptyNote => NoteErrorView::ValidationError("Note is empty"@),
            e => NoteErrorView::AnkiError(AnkiErrorView::AnkiConnectError(e)),
        }
    }
}

impl NoteError {
    /// The sentence that describes the error.
    pub fn message(&self) -> (r: String)
        ensures
            r@ == self@.message(),
    {
        match self {
            NoteError::MissingField(s) => prefixed("Missing required field: ", s),
            NoteError::UnknownField(s) => prefixed("Unknown field: ", s),
            NoteError::EmptyField(s) => prefixed("Empty content for field: ", s),
            NoteError::EmptyQuestion => String::from_str(
                "The provided field content would result in an empty question",
            ),
            NoteError::InvalidMedia(s) => prefixed("Invalid media: ", s),
            NoteError::DuplicateNote => String::from_str(
                "Note would be a duplicate of an existing note",
            ),
            NoteError::ValidationError(s) => prefixed("Note validation error: ", s),
            NoteError::FieldValidationError { field, message } => {
                let mut r = prefixed("Field content validation error for '", field);
                r.append("': ");
                r.append(message.as_str());
                r
            },
            NoteError::AnkiError(e) => {
                let inner = e.message();
                prefixed("Anki error: ", &inner)
            },
        }
    }

    /// The note error that stands for a failure of the remote service: an
    /// empty question, a duplicate and an empty note have a variant of their
    /// own, every other failure is carried along.
    pub fn from_remote(err: AnkiConnectError) -> (e: NoteError)
        ensures
            e@ == NoteErrorView::of_remote(err@),
    {
        match err {
            AnkiConnectError::EmptyQuestion => NoteError::EmptyQuestion,
            AnkiConnectError::DuplicateNote => NoteError::DuplicateNote,
            AnkiConnectError::EmptyNote => NoteError::ValidationError(
                String::from_str("Note is empty"),
            ),
            e => NoteError::AnkiError(AnkiError::AnkiConnectError(e)),
        }
    }
}

impl From<AnkiError> for NoteError {
    fn from(err: AnkiError) -> (e: NoteError) {
        NoteError::AnkiError(err)
    }
}

impl FromSpecImpl<AnkiError> for NoteError {
    open spec fn obeys_from_spec() -> bool {
        true
    }

    open spec fn from_spec(err: AnkiError) -> NoteError {
        NoteError::AnkiError(err)
    }
}

/// A failure of a request for a card whose model is known by identifier
/// and name.
#[derive(Debug, PartialEq, Eq)]
pub enum AnkiRequestError {
    /// The request could not be delivered; the text is the transport's own.
    HttpError(String),
    /// The remote service reported a failure.
    AnkiConnectError(AnkiConnectError),
    /// The named field does not belong to the model.
    InvalidField(String, AnkiModelIdentifier),
}

/// What an [`AnkiRequestError`] is.
pub enum AnkiRequestErrorView {
    HttpError(Seq<char>),
    AnkiConnectError(AnkiConnectErrorView),
    InvalidField(Seq<char>, NamedView),
}

impl View for AnkiRequestError {
    type V = AnkiRequestErrorView;

    open spec fn view(&self) -> AnkiRequestErrorView {
        match self {
            AnkiRequestError::HttpError(s) => AnkiRequestErrorView::HttpError(s@),
            AnkiRequestError::AnkiConnectError(e) => AnkiRequestErrorView::AnkiConnectError(e@),
            AnkiRequestError::InvalidField(s, m) => AnkiRequestErrorView::InvalidField(s@, m@),
        }
    }
}

impl From<AnkiConnectError> for AnkiRequestError {
    fn from(err: AnkiConnectError) -> (e: AnkiRequestError) {
        AnkiRequestError::AnkiConnectError(err)
    }
}

impl FromSpecImpl<AnkiConnectError> for AnkiRequestError {
    open spec fn obeys_from_spec() -> bool {
        true
    }

    open spec fn from_spec(err: AnkiConnectError) -> AnkiRequestError {
        AnkiRequestError::AnkiConnectError(err)
    }
}

/// The error that a message of the remote service stands for.
///
/// The message is held against the known patterns in a fixed order and the
/// first that fits decides. A pattern that ends in a colon and a space is a
/// prefix, and what follows it is the offending name; every other pattern
/// must be the whole message. A message that fits none is kept as it is.
pub open spec fn classify(msg: Seq<char>) -> AnkiConnectErrorView {
    if "deck was not found: "@.is_prefix_of(msg) {
        AnkiConnectErrorView::DeckNotFound(msg.skip("deck was not found: "@.len() as int))
    } else if "model was not found: "@.is_prefix_of(msg) {
        AnkiConnectErrorView::ModelNotFound(msg.skip("model was not found: "@.len() as int))
    } else if msg == "cannot create note because it is a duplicate"@ {
        AnkiConnectErrorView::DuplicateNote
    } else if msg == "cannot create note because it is empty"@ {
        AnkiConnectErrorView::EmptyNote
    } else if "invalid columnId: "@.is_prefix_of(msg) {
        AnkiConnectErrorView::InvalidColumnId(msg.skip("invalid columnId: "@.len() as int))
    } else if "invalid card order: "@.is_prefix_of(msg) {
        AnkiConnectErrorView::InvalidCardOrder(msg.skip("invalid card order: "@.len() as int))
    } else if msg == "You must provide a \"data\", \"path\", or \"url\" field."@ {
        AnkiConnectErrorView::MissingMediaField
    } else if msg == "Model name already exists"@ {
        AnkiConnectErrorView::ModelNameExists
    } else if msg
        == "The field values you have provided would make an empty question on all cards."@ {
        AnkiConnectErrorView::EmptyQuestion
    } else if msg == "unsupported action"@ {
        AnkiConnectErrorView::UnsupportedAction
    } else {
        AnkiConnectErrorView::Other(msg)
    }
}

/// Whether `msg` fits one of the known patterns.
pub open spec fn is_recognized(msg: Seq<char>) -> bool {
    ||| "deck was not found: "@.is_prefix_of(msg)
    ||| "model was not found: "@.is_prefix_of(msg)
    ||| msg == "cannot create note because it is a duplicate"@
    ||| msg == "cannot create note because it is empty"@
    ||| "invalid columnId: "@.is_prefix_of(msg)
    ||| "invalid card order: "@.is_prefix_of(msg)
    ||| msg == "You must provide a \"data\", \"path\", or \"url\" field."@
    ||| msg == "Model name already exists"@
    ||| msg == "The field values you have provided would make an empty question on all cards."@
    ||| msg == "unsupported action"@
}

/// What follows the first `prefix.len()` characters of `chars`.
fn after_prefix(chars: &Vec<char>, prefix: &str) -> (r: String)
    requires
        prefix@.is_prefix_of(chars@),
    ensures
        r@ == chars@.skip(prefix@.len() as int),
{
    let n = prefix.unicode_len();
    string_of(chars, n, chars.len())
}

/// Classifies a message of the remote service. Every message has exactly one
/// class: the function asks nothing of its input and its result is a
/// function of the message's text.
pub fn parse_anki_connect_error(error: &str) -> (e: AnkiConnectError)
    ensures
        e@ == classify(error@),
{
    let chars = chars_of(error);
    if has_prefix(&chars, "deck was not found: ") {
        AnkiConnectError::DeckNotFound(after_prefix(&chars, "deck was not found: "))
    } else if has_prefix(&chars, "model was not found: ") {
        AnkiConnectError::ModelNotFound(after_prefix(&chars, "model was not found: "))
    } else if str_eq(error, "cannot create note because it is a duplicate") {
        AnkiConnectError::DuplicateNote
    } else if str_eq(error, "cannot create note because it is empty") {
        AnkiConnectError::EmptyNote
    } else if has_prefix(&chars, "invalid columnId: ") {
        AnkiConnectError::InvalidColumnId(after_prefix(&chars, "invalid columnId: "))
    } else if has_prefix(&chars, "invalid card order: ") {
        AnkiConnectError::InvalidCardOrder(after_prefix(&chars, "invalid card order: "))
    } else if str_eq(error, "You must provide a \"data\", \"path\", or \"url\" field.") {
        AnkiConnectError::MissingMediaField
    } else if str_eq(error, "Model name already exists") {
        AnkiConnectError::ModelNameExists
    } else if str_eq(
        error,
        "The field values you have provided would make an empty question on all cards.",
    ) {
        AnkiConnectError::EmptyQuestion
    } else if str_eq(error, "unsupported action") {
        AnkiConnectError::UnsupportedAction
    } else {
        AnkiConnectError::Other(String::from_str(error))
    }
}

/// A message made of the deck pattern and a name is classified as that deck
/// missing, whatever the name is.
pub proof fn lemma_classify_deck_not_found(name: Seq<char>)
    ensures
        classify("deck was not found: "@ + name) == AnkiConnectErrorView::DeckNotFound(name),
{
    let p = "deck was not found: "@;
    let msg = p + name;
    assert(msg.subrange(0, p.len() as int) =~= p);
    assert(msg.skip(p.len() as int) =~= name);
}

/// A message made of the model pattern and a name is classified as that
/// model missing, whatever the name is.
pub proof fn lemma_classify_model_not_found(name: Seq<char>)
    ensures
        classify("model was not found: "@ + name) == AnkiConnectErrorView::ModelNotFound(name),
{
    reveal_strlit("deck was not found: ");
    reveal_strlit("model was not found: ");
    let p = "model was not found: "@;
    let d = "deck was not found: "@;
    let msg = p + name;
    assert(msg.subrange(0, p.len() as int) =~= p);
    assert(msg.skip(p.len() as int) =~= name);
    assert(msg[0] == 'm');
    assert(!d.is_prefix_of(msg)) by {
        if d.is_prefix_of(msg) {
            assert(msg.subrange(0, d.len() as int)[0] == d[0]);
        }
    }
}

/// A message made of the column pattern and an identifier is classified as
/// that column identifier being invalid, whatever the identifier is.
pub proof fn lemma_classify_invalid_column_id(id: Seq<char>)
    ensures
        classify("invalid columnId: "@ + id) == AnkiConnectErrorView::InvalidColumnId(id),
{
    reveal_strlit("deck was not found: ");
    reveal_strlit("model was not found: ");
    reveal_strlit("cannot create note because it is a duplicate");
    reveal_strlit("cannot create note because it is empty");
    reveal_strlit("invalid columnId: ");
    let p = "invalid columnId: "@;
    let msg = p + id;
    assert(msg.subrange(0, p.len() as int) =~= p);
    assert(msg.skip(p.len() as int) =~= id);
    assert(msg[0] == 'i');
    lemma_other_first_char(msg, "deck was not found: "@);
    lemma_other_first_char(msg, "model was not found: "@);
}

/// A message made of the card order pattern and an order is classified as
/// that card order being invalid, whatever the order is.
pub proof fn lemma_classify_invalid_card_order(order: Seq<char>)
    ensures
        classify("invalid card order: "@ + order) == AnkiConnectErrorView::InvalidCardOrder(
            order,
        ),
{
    reveal_strlit("deck was not found: ");
    reveal_strlit("model was not found: ");
    reveal_strlit("cannot create note because it is a duplicate");
    reveal_strlit("cannot create note because it is empty");
    reveal_strlit("invalid columnId: ");
    reveal_strlit("invalid card order: ");
    let p = "invalid card order: "@;
    let c = "invalid columnId: "@;
    let msg = p + order;
    assert(msg.subrange(0, p.len() as int) =~= p);
    assert(msg.skip(p.len() as int) =~= order);
    assert(msg[0] == 'i');
    assert(msg[9] == 'a');
    lemma_other_first_char(msg, "deck was not found: "@);
    lemma_other_first_char(msg, "model was not found: "@);
    assert(!c.is_prefix_of(msg)) by {
        if c.is_prefix_of(msg) {
            assert(msg.subrange(0, c.len() as int)[9] == c[9]);
        }
    }
}

/// A pattern whose first character is not the first character of a message
/// is no prefix of the message.
proof fn lemma_other_first_char(msg: Seq<char>, pattern: Seq<char>)
    requires
        msg.len() > 0,
        pattern.len() > 0,
        msg[0] != pattern[0],
    ensures
        !pattern.is_prefix_of(msg),
{
    if pattern.is_prefix_of(msg) {
        assert(msg.subrange(0, pattern.len() as int)[0] == pattern[0]);
    }
}

/// A message that fits no known pattern is kept whole.
pub proof fn lemma_classify_unrecognized(msg: Seq<char>)
    requires
        !is_recognized(msg),
    ensures
        classify(msg) == AnkiConnectErrorView::Other(msg),
{
}

/// A message that fits a known pattern is never classified as unrecognized.
pub proof fn lemma_classify_recognized(msg: Seq<char>)
    requires
        is_recognized(msg),
    ensures
        !(classify(msg) is Other),
{
}

} // verus!
