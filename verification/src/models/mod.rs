//! The things of the flashcard collection: decks, note types, media, notes
//! and cards.

pub mod card;
pub mod deck;
pub mod media;
pub mod model;
pub mod note;

pub use self::card::{Card, CardId};
pub use self::deck::{Deck, DeckConfig, DeckId, DeckStats};
pub use self::media::{FieldMedia, Media, MediaSource, MediaType};
pub use self::model::{Field, FieldRef, Model, ModelId};
pub use self::note::{Note, NoteId};
