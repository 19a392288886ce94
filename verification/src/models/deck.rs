//! Decks, their option groups and their counts.

use crate::client::request::{DeckConfigDto, DeckStatsDto};
use crate::text::{chars_of, contains_text, occurs_at, rfind};
use vstd::prelude::*;
use vstd::std_specs::convert::FromSpecImpl;

verus! {

/// The identifier of a deck.
#[derive(Debug, Clone, Copy, PartialEq, Eq, Hash)]
pub struct DeckId(pub u64);

/// A deck of cards. Two colons in its name part a deck from the deck above.
#[derive(Debug, PartialEq, Eq)]
pub struct Deck {
    id: DeckId,
    name: String,
}

/// What a [`Deck`] is.
pub struct DeckView {
    pub id: u64,
    pub name: Seq<char>,
}

/// `k` is the last place in `name` where two colons stand.
pub open spec fn is_last_separator(name: Seq<char>, k: int) -> bool {
    occurs_at(name, "::"@, k) && forall|j: int| k < j ==> !occurs_at(name, "::"@, j)
}

impl DeckView {
    /// The name holds two colons in a row.
    pub open spec fn is_subdeck(self) -> bool {
        contains_text(self.name, "::"@)
    }
}

impl View for Deck {
    type V = DeckView;

    closed spec fn view(&self) -> DeckView {
        DeckView { id: self.id.0, name: self.name@ }
    }
}

impl Clone for Deck {
    fn clone(&self) -> (r: Deck)
        ensures
            r@ == self@,
    {
        Deck { id: self.id, name: self.name.clone() }
    }
}

impl Deck {
    /// The deck with the given identifier and name.
    pub fn new(id: u64, name: String) -> (d: Deck)
        ensures
            d@ == (DeckView { id, name: name@ }),
    {
        Deck { id: DeckId(id), name }
    }

    /// The identifier of the deck.
    pub fn id(&self) -> (r: DeckId)
        ensures
            r.0 == self@.id,
    {
        self.id
    }

    /// The full name of the deck.
    pub fn name(&self) -> (r: &str)
        ensures
            r@ == self@.name,
    {
        self.name.as_str()
    }

    /// The place of the last two colons in the name.
    fn last_separator(&self) -> (r: Option<usize>)
        ensures
            match r {
                Some(k) => is_last_separator(self@.name, k as int),
                None => !self@.is_subdeck(),
            },
    {
        let chars = chars_of(self.name.as_str());
        let sep = chars_of("::");
        rfind(&chars, &sep)
    }

    /// Whether the deck lies below another deck.
    pub fn is_subdeck(&self) -> (r: bool)
        ensures
            r == self@.is_subdeck(),
    {
        match self.last_separator() {
            Some(k) => {
                assert(occurs_at(self@.name, "::"@, k as int));
                true
            },
            None => false,
        }
    }

    /// The name of the deck above: what stands before the last two colons.
    pub fn parent_name(&self) -> (r: Option<&str>)
        ensures
            r is Some <==> self@.is_subdeck(),
            r matches Some(p) ==> exists|k: int|
                is_last_separator(self@.name, k) && p@ == self@.name.take(k),
    {
        match self.last_separator() {
            Some(k) => {
                assert(occurs_at(self@.name, "::"@, k as int));
                Some(self.name.as_str().substring_char(0, k))
            },
            None => None,
        }
    }

    /// The deck's own name: what stands after the last two colons, or the
    /// whole name where there are none.
    pub fn base_name(&self) -> (r: &str)
        ensures
            !self@.is_subdeck() ==> r@ == self@.name,
            self@.is_subdeck() ==> exists|k: int|
                is_last_separator(self@.name, k) && r@ == self@.name.skip(k + 2),
    {
        match self.last_separator() {
            Some(k) => {
                proof {
                    reveal_strlit("::");
                    assert(occurs_at(self@.name, "::"@, k as int));
                }
                let n = self.name.as_str().unicode_len();
                self.name.as_str().substring_char(k + 2, n)
            },
            None => self.name.as_str(),
        }
    }
}

/// An option group of decks.
#[derive(Debug, Clone, PartialEq, Eq)]
pub struct DeckConfig {
    pub id: u64,
    pub name: String,
    pub reuse_if_possible: bool,
    pub disable_auto_qe: bool,
}

impl From<DeckConfigDto> for DeckConfig {
    fn from(dto: DeckConfigDto) -> (r: DeckConfig) {
        DeckConfig {
            id: dto.id,
            name: dto.name,
            reuse_if_possible: dto.reuse_if_possible,
            disable_auto_qe: dto.disable_auto_qe,
        }
    }
}

impl FromSpecImpl<DeckConfigDto> for DeckConfig {
    open spec fn obeys_from_spec() -> bool {
        true
    }

    open spec fn from_spec(dto: DeckConfigDto) -> DeckConfig {
        DeckConfig {
            id: dto.id,
            name: dto.name,
            reuse_if_possible: dto.reuse_if_possible,
            disable_auto_qe: dto.disable_auto_qe,
        }
    }
}

/// The counts of a deck.
#[derive(Debug, Clone, PartialEq, Eq)]
pub struct DeckStats {
    pub deck_id: u64,
    pub new_count: u32,
    pub learn_count: u32,
    pub review_count: u32,
    pub total_in_deck: u32,
}

impl From<DeckStatsDto> for DeckStats {
    fn from(dto: DeckStatsDto) -> (r: DeckStats) {
        DeckStats {
            deck_id: dto.deck_id,
            new_count: dto.new_count,
            learn_count: dto.learn_count,
            review_count: dto.review_count,
            total_in_deck: dto.total_in_deck,
        }
    }
}

impl FromSpecImpl<DeckStatsDto> for DeckStats {
    open spec fn obeys_from_spec() -> bool {
        true
    }

    open spec fn from_spec(dto: DeckStatsDto) -> DeckStats {
        DeckStats {
            deck_id: dto.deck_id,
            new_count: dto.new_count,
            learn_count: dto.learn_count,
            review_count: dto.review_count,
            total_in_deck: dto.total_in_deck,
        }
    }
}

} // verus!
