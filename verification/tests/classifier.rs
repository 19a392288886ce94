use ankiconnect_rs::anki_card::AnkiModelIdentifier;
use ankiconnect_rs::error::{
    parse_anki_connect_error, AnkiConnectError, AnkiError, AnkiRequestError, NoteError,
};
use ankiconnect_rs::models::model::ModelError;

#[test]
fn deck_not_found_carries_the_name() {
    assert_eq!(
        parse_anki_connect_error("deck was not found: NonExistingDeck"),
        AnkiConnectError::DeckNotFound("NonExistingDeck".to_string())
    );
    assert_eq!(
        parse_anki_connect_error("deck was not found: "),
        AnkiConnectError::DeckNotFound(String::new())
    );
}

#[test]
fn model_not_found_carries_the_name() {
    assert_eq!(
        parse_anki_connect_error("model was not found: Basic"),
        AnkiConnectError::ModelNotFound("Basic".to_string())
    );
    assert_eq!(
        parse_anki_connect_error("model was not found: Basic (and reversed card)"),
        AnkiConnectError::ModelNotFound("Basic (and reversed card)".to_string())
    );
}

#[test]
fn the_name_is_what_follows_the_pattern() {
    assert_eq!(
        parse_anki_connect_error("deck was not found:  two spaces "),
        AnkiConnectError::DeckNotFound(" two spaces ".to_string())
    );
    assert_eq!(
        parse_anki_connect_error("deck was not found: deck was not found: x"),
        AnkiConnectError::DeckNotFound("deck was not found: x".to_string())
    );
    assert_eq!(
        parse_anki_connect_error("invalid columnId: 敷衍"),
        AnkiConnectError::InvalidColumnId("敷衍".to_string())
    );
}

#[test]
fn every_pattern_of_the_table() {
    assert_eq!(
        parse_anki_connect_error("cannot create note because it is a duplicate"),
        AnkiConnectError::DuplicateNote
    );
    assert_eq!(
        parse_anki_connect_error("cannot create note because it is empty"),
        AnkiConnectError::EmptyNote
    );
    assert_eq!(
        parse_anki_connect_error("invalid columnId: noteFoo"),
        AnkiConnectError::InvalidColumnId("noteFoo".to_string())
    );
    assert_eq!(
        parse_anki_connect_error("invalid card order: upside down"),
        AnkiConnectError::InvalidCardOrder("upside down".to_string())
    );
    assert_eq!(
        parse_anki_connect_error("You must provide a \"data\", \"path\", or \"url\" field."),
        AnkiConnectError::MissingMediaField
    );
    assert_eq!(
        parse_anki_connect_error("Model name already exists"),
        AnkiConnectError::ModelNameExists
    );
    assert_eq!(
        parse_anki_connect_error(
            "The field values you have provided would make an empty question on all cards."
        ),
        AnkiConnectError::EmptyQuestion
    );
    assert_eq!(
        parse_anki_connect_error("unsupported action"),
        AnkiConnectError::UnsupportedAction
    );
}

#[test]
fn anything_else_is_kept_as_it_is() {
    for text in [
        "",
        "something went wrong",
        "Deck was not found: X",
        "deck was not found:X",
        "deck was not found",
        " unsupported action",
        "unsupported action ",
        "unsupported action: x",
        "cannot create note because it is a duplicate!",
        "Model name already exists.",
        "invalid columnId",
        "invalid card order:",
    ] {
        assert_eq!(
            parse_anki_connect_error(text),
            AnkiConnectError::Other(text.to_string())
        );
    }
}

#[test]
fn classifying_twice_gives_the_same() {
    for text in ["deck was not found: A", "x", "unsupported action"] {
        assert_eq!(parse_anki_connect_error(text), parse_anki_connect_error(text));
    }
}

#[test]
fn messages_of_remote_errors() {
    let cases = [
        (AnkiConnectError::UnsupportedAction, "Unsupported action"),
        (
            AnkiConnectError::EmptyQuestion,
            "The field values would make an empty question",
        ),
        (
            AnkiConnectError::ModelNotFound("M".to_string()),
            "Model not found: M",
        ),
        (
            AnkiConnectError::DeckNotFound("D".to_string()),
            "Deck not found: D",
        ),
        (AnkiConnectError::DuplicateNote, "Duplicate note"),
        (AnkiConnectError::EmptyNote, "Empty note"),
        (
            AnkiConnectError::MissingMediaField,
            "Missing media field (provide data, path, or URL)",
        ),
        (AnkiConnectError::ModelNameExists, "Model name already exists"),
        (
            AnkiConnectError::InvalidColumnId("c".to_string()),
            "Invalid column ID: c",
        ),
        (
            AnkiConnectError::InvalidCardOrder("o".to_string()),
            "Invalid card order: o",
        ),
        (AnkiConnectError::Other("x y".to_string()), "Other error: x y"),
    ];
    for (error, text) in cases {
        assert_eq!(error.message(), text);
    }
}

#[test]
fn messages_of_errors() {
    let cases = [
        (
            AnkiError::AnkiConnectError(AnkiConnectError::DuplicateNote),
            "Duplicate note",
        ),
        (
            AnkiError::HttpError("refused".to_string()),
            "HTTP request failed: refused",
        ),
        (
            AnkiError::JsonError("bad".to_string()),
            "JSON parsing failed: bad",
        ),
        (
            AnkiError::InvalidField {
                field_name: "F".to_string(),
                model_name: "M".to_string(),
            },
            "Invalid field 'F' for model 'M'",
        ),
        (
            AnkiError::ValidationError("v".to_string()),
            "Validation error: v",
        ),
        (AnkiError::UnknownError("u".to_string()), "Unknown error: u"),
    ];
    for (error, text) in cases {
        assert_eq!(error.message(), text);
    }
    assert_eq!(
        AnkiError::validation("Deck name cannot be empty"),
        AnkiError::ValidationError("Deck name cannot be empty".to_string())
    );
}

#[test]
fn messages_of_note_errors() {
    let cases = [
        (
            NoteError::MissingField("F".to_string()),
            "Missing required field: F",
        ),
        (NoteError::UnknownField("F".to_string()), "Unknown field: F"),
        (
            NoteError::EmptyField("F".to_string()),
            "Empty content for field: F",
        ),
        (
            NoteError::EmptyQuestion,
            "The provided field content would result in an empty question",
        ),
        (NoteError::InvalidMedia("m".to_string()), "Invalid media: m"),
        (
            NoteError::DuplicateNote,
            "Note would be a duplicate of an existing note",
        ),
        (
            NoteError::ValidationError("v".to_string()),
            "Note validation error: v",
        ),
        (
            NoteError::FieldValidationError {
                field: "F".to_string(),
                message: "too long".to_string(),
            },
            "Field content validation error for 'F': too long",
        ),
        (
            NoteError::AnkiError(AnkiError::UnknownError("u".to_string())),
            "Anki error: Unknown error: u",
        ),
    ];
    for (error, text) in cases {
        assert_eq!(error.message(), text);
    }
}

#[test]
fn messages_of_model_errors() {
    assert_eq!(
        ModelError::NoFields.message(),
        "Model must have at least one field"
    );
    assert_eq!(
        ModelError::DuplicateFieldName("Front".to_string()).message(),
        "Duplicate field name: Front"
    );
}

#[test]
fn remote_errors_as_note_errors() {
    assert_eq!(
        NoteError::from_remote(AnkiConnectError::EmptyQuestion),
        NoteError::EmptyQuestion
    );
    assert_eq!(
        NoteError::from_remote(AnkiConnectError::DuplicateNote),
        NoteError::DuplicateNote
    );
    assert_eq!(
        NoteError::from_remote(AnkiConnectError::EmptyNote),
        NoteError::ValidationError("Note is empty".to_string())
    );
    assert_eq!(
        NoteError::from_remote(AnkiConnectError::DeckNotFound("D".to_string())),
        NoteError::AnkiError(AnkiError::AnkiConnectError(
            AnkiConnectError::DeckNotFound("D".to_string())
        ))
    );
}

#[test]
fn errors_wrap_each_other() {
    assert_eq!(
        AnkiError::from(AnkiConnectError::EmptyNote),
        AnkiError::AnkiConnectError(AnkiConnectError::EmptyNote)
    );
    assert_eq!(
        NoteError::from(AnkiError::JsonError("j".to_string())),
        NoteError::AnkiError(AnkiError::JsonError("j".to_string()))
    );
    assert_eq!(
        AnkiRequestError::from(AnkiConnectError::EmptyNote),
        AnkiRequestError::AnkiConnectError(AnkiConnectError::EmptyNote)
    );
    let invalid = AnkiRequestError::InvalidField(
        "F".to_string(),
        AnkiModelIdentifier::new(1, "Basic".to_string()),
    );
    assert!(matches!(invalid, AnkiRequestError::InvalidField(f, m) if f == "F" && m.get_name() == "Basic"));
}
