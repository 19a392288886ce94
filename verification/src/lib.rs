//! A typed client for AnkiConnect, the interface through which the Anki
//! flashcard program takes requests from other programs.
//!
//! The crate puts requests together and says what answers mean; it does not
//! open connections itself. A program that uses it supplies a
//! [`http::RequestSender`], which delivers a request and hands back the
//! answer.
//!
//! * [`builders`] holds the builder for search queries, which escapes every
//!   text that the caller supplies, and the builder for notes, which checks
//!   a note against its model when the note is finished.
//! * [`models`] holds decks, models with their fields, media, notes and
//!   cards.
//! * [`error`] holds the error values and the classifier that turns a
//!   message of the service into one of them.
//! * [`client`] holds one client for each part of the service.
//!
//! Every function states what it returns over the views of its arguments:
//! strings are seen as sequences of characters, collections as sequences of
//! the views of their items.

pub mod anki_card;
pub mod anki_connect_client;
pub mod anki_connect_request;
pub mod anki_search_query;
pub mod builders;
pub mod client;
pub mod collections;
pub mod error;
pub mod http;
pub mod models;
pub mod parameter_types;
pub mod request_sender;
pub mod text;

pub use builders::{NoteBuilder, QueryBuilder};
pub use client::{AnkiClient, DuplicateScope};
pub use error::{AnkiConnectError, AnkiError, NoteError};
pub use models::{
    Card, CardId, Deck, DeckId, Field, FieldMedia, Media, MediaSource, MediaType, Model, Note,
    NoteId,
};
