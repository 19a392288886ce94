//! Clients for the parts of the remote service.

pub mod anki_client;
pub mod cards;
pub mod decks;
pub mod media;
pub mod models;
pub mod request;

pub use self::anki_client::AnkiClient;
pub use self::cards::{CardClient, DuplicateScope};
pub use self::decks::DeckClient;
pub use self::media::MediaClient;
pub use self::models::ModelClient;
