//! The entry point: one client for every part of the service.

use crate::client::cards::CardClient;
use crate::client::decks::DeckClient;
use crate::client::media::MediaClient;
use crate::client::models::ModelClient;
use crate::error::AnkiError;
use crate::http::RequestSender;
use vstd::prelude::*;

verus! {

/// The client for the whole service: it holds the clients for cards, decks,
/// media files and models.
pub struct AnkiClient<S: RequestSender> {
    cards_client: CardClient<S>,
    decks_client: DeckClient<S>,
    media_client: MediaClient<S>,
    models_client: ModelClient<S>,
}

impl<S: RequestSender> AnkiClient<S> {
    /// The client whose parts talk through the four senders, in the order
    /// cards, decks, media files, models.
    pub fn with_senders(cards: S, decks: S, media: S, models: S) -> (r: AnkiClient<S>)
        ensures
            r.spec_cards().sender() == cards,
            r.spec_decks().sender() == decks,
            r.spec_media().sender() == media,
            r.spec_models().sender() == models,
    {
        AnkiClient {
            cards_client: CardClient::new(cards),
            decks_client: DeckClient::new(decks),
            media_client: MediaClient::new(media),
            models_client: ModelClient::new(models),
        }
    }

    /// The client for cards and notes.
    pub closed spec fn spec_cards(&self) -> CardClient<S> {
        self.cards_client
    }

    /// The client for decks.
    pub closed spec fn spec_decks(&self) -> DeckClient<S> {
        self.decks_client
    }

    /// The client for media files.
    pub closed spec fn spec_media(&self) -> MediaClient<S> {
        self.media_client
    }

    /// The client for models.
    pub closed spec fn spec_models(&self) -> ModelClient<S> {
        self.models_client
    }

    /// The version of the service, as the client for cards reads it from
    /// what its sender answers: see [`CardClient::get_version`].
    pub fn version(&self) -> (r: Result<u16, AnkiError>)
        ensures
            self.spec_cards().got_version(r),
    {
        self.cards_client.get_version()
    }

    /// The client for cards and notes.
    pub fn cards(&self) -> (r: &CardClient<S>)
        ensures
            *r == self.spec_cards(),
    {
        &self.cards_client
    }

    /// The client for decks.
    pub fn decks(&self) -> (r: &DeckClient<S>)
        ensures
            *r == self.spec_decks(),
    {
        &self.decks_client
    }

    /// The client for media files.
    pub fn media(&self) -> (r: &MediaClient<S>)
        ensures
            *r == self.spec_media(),
    {
        &self.media_client
    }

    /// The client for models.
    pub fn models(&self) -> (r: &ModelClient<S>)
        ensures
            *r == self.spec_models(),
    {
        &self.models_client
    }
}

} // verus!
