//! The client for decks.
//!
//! Each method that talks to the service hands its request to the sender
//! and gives the answer to a function of this module that decides what the
//! answer means. The contract of the method says both: which request the
//! sender is asked, and what the method returns for what the sender
//! answers.

use crate::builders::query::{deck_term, QueryBuilder, QueryBuilderView};
use crate::client::request::{
    CreateDeckParams, DeckConfigDto, DeckConfigsResult, DeckStatsDto, DeckStatsParams,
    DeleteDeckParams, DeckTreeNode, FindCardsParams, Params, Reply, ReplyKind,
};
use crate::error::{AnkiError, AnkiErrorView};
use crate::http::{
    expect_deck_configs, expect_deck_stats, expect_deck_tree, expect_names_and_ids,
    expect_nothing, expect_number, expect_numbers, reads_deck_tree, reads_nothing,
    unexpected_shape, RequestSender,
};
use crate::models::card::CardId;
use crate::models::deck::{Deck, DeckConfig, DeckId, DeckStats, DeckView};
use crate::text::{str_eq, texts};
use vstd::prelude::*;

verus! {

/// The views of a sequence of decks.
pub open spec fn deck_views(v: Seq<Deck>) -> Seq<DeckView> {
    v.map_values(|d: Deck| d@)
}

/// The decks that names with identifiers stand for.
pub open spec fn decks_of(pairs: Seq<(String, u64)>) -> Seq<DeckView> {
    pairs.map_values(|p: (String, u64)| DeckView { id: p.1, name: p.0@ })
}

/// `i` is the first place in `decks` that holds a deck named `name`.
pub open spec fn is_first_deck_named(decks: Seq<DeckView>, name: Seq<char>, i: int) -> bool {
    0 <= i < decks.len() && decks[i].name == name && forall|k: int|
        0 <= k < i ==> decks[k].name != name
}

/// `i` is the first place in `decks` that holds a deck with identifier `id`.
pub open spec fn is_first_deck_with_id(decks: Seq<DeckView>, id: u64, i: int) -> bool {
    0 <= i < decks.len() && decks[i].id == id && forall|k: int| 0 <= k < i ==> decks[k].id != id
}

/// The card identifiers that a list of numbers stands for.
pub open spec fn card_ids_of(numbers: Seq<u64>) -> Seq<CardId> {
    numbers.map_values(|n: u64| CardId(n))
}

/// `r` is what an answer gives that is read as identifiers of cards: one
/// for every number, in the same order.
pub open spec fn reads_card_ids(
    answer: Result<Reply, AnkiError>,
    r: Result<Vec<CardId>, AnkiError>,
) -> bool {
    match answer {
        Ok(Reply::Numbers(v)) => r matches Ok(ids) && ids@ == card_ids_of(v@),
        Ok(_) => r matches Err(e) && e@ == unexpected_shape(),
        Err(err) => r matches Err(e) && e == err,
    }
}

/// One deck for every name with its identifier, in the same order.
pub fn decks_from(pairs: &Vec<(String, u64)>) -> (r: Vec<Deck>)
    ensures
        deck_views(r@) == decks_of(pairs@),
{
    let mut r: Vec<Deck> = Vec::new();
    let mut i: usize = 0;
    while i < pairs.len()
        invariant
            i <= pairs.len(),
            r@.len() == i,
            forall|k: int| 0 <= k < i ==> r@[k]@ == decks_of(pairs@)[k],
        decreases pairs.len() - i,
    {
        r.push(Deck::new(pairs[i].1, pairs[i].0.clone()));
        i += 1;
    }
    assert(deck_views(r@) =~= decks_of(pairs@));
    r
}

/// The first of `decks` with the name `name`.
pub fn find_deck_by_name(decks: &Vec<Deck>, name: &str) -> (r: Option<Deck>)
    ensures
        r is Some <==> exists|i: int| is_first_deck_named(deck_views(decks@), name@, i),
        r matches Some(d) ==> exists|i: int|
            is_first_deck_named(deck_views(decks@), name@, i) && d@ == decks@[i]@,
{
    let mut i: usize = 0;
    while i < decks.len()
        invariant
            i <= decks.len(),
            forall|k: int| 0 <= k < i ==> deck_views(decks@)[k].name != name@,
        decreases decks.len() - i,
    {
        if str_eq(decks[i].name(), name) {
            assert(is_first_deck_named(deck_views(decks@), name@, i as int));
            return Some(decks[i].clone());
        }
        i += 1;
    }
    None
}

/// The first of `decks` with the identifier `id`.
pub fn find_deck_by_id(decks: &Vec<Deck>, id: DeckId) -> (r: Option<Deck>)
    ensures
        r is Some <==> exists|i: int| is_first_deck_with_id(deck_views(decks@), id.0, i),
        r matches Some(d) ==> exists|i: int|
            is_first_deck_with_id(deck_views(decks@), id.0, i) && d@ == decks@[i]@,
{
    let mut i: usize = 0;
    while i < decks.len()
        invariant
            i <= decks.len(),
            forall|k: int| 0 <= k < i ==> deck_views(decks@)[k].id != id.0,
        decreases decks.len() - i,
    {
        if decks[i].id().0 == id.0 {
            assert(is_first_deck_with_id(deck_views(decks@), id.0, i as int));
            return Some(decks[i].clone());
        }
        i += 1;
    }
    None
}

/// One card identifier for every number, in the same order.
pub fn card_ids_from(numbers: &Vec<u64>) -> (r: Vec<CardId>)
    ensures
        r@ == card_ids_of(numbers@),
{
    let mut r: Vec<CardId> = Vec::new();
    let mut i: usize = 0;
    while i < numbers.len()
        invariant
            i <= numbers.len(),
            r@.len() == i,
            forall|k: int| 0 <= k < i ==> r@[k] == CardId(numbers@[k]),
        decreases numbers.len() - i,
    {
        r.push(CardId(numbers[i]));
        i += 1;
    }
    assert(r@ =~= card_ids_of(numbers@));
    r
}

/// The option groups of a result, each as a [`DeckConfig`], in the same
/// order.
pub fn configurations_from(result: DeckConfigsResult) -> (r: Vec<DeckConfig>)
    ensures
        same_configs(r@, result.config_list@),
        r@.len() == result.config_list@.len(),
        forall|i: int|
            0 <= i < r@.len() ==> {
                &&& (#[trigger] r@[i]).id == result.config_list@[i].id
                &&& r@[i].name@ == result.config_list@[i].name@
                &&& r@[i].reuse_if_possible == result.config_list@[i].reuse_if_possible
                &&& r@[i].disable_auto_qe == result.config_list@[i].disable_auto_qe
            },
{
    let mut r: Vec<DeckConfig> = Vec::new();
    let mut i: usize = 0;
    while i < result.config_list.len()
        invariant
            i <= result.config_list.len(),
            r@.len() == i,
            forall|k: int|
                0 <= k < i ==> {
                    &&& (#[trigger] r@[k]).id == result.config_list@[k].id
                    &&& r@[k].name@ == result.config_list@[k].name@
                    &&& r@[k].reuse_if_possible == result.config_list@[k].reuse_if_possible
                    &&& r@[k].disable_auto_qe == result.config_list@[k].disable_auto_qe
                },
        decreases result.config_list.len() - i,
    {
        let dto = &result.config_list[i];
        r.push(
            DeckConfig::from(
                DeckConfigDto {
                    id: dto.id,
                    name: dto.name.clone(),
                    reuse_if_possible: dto.reuse_if_possible,
                    disable_auto_qe: dto.disable_auto_qe,
                },
            ),
        );
        i += 1;
    }
    r
}

/// The counts of a result by deck name, each as a [`DeckStats`], in the
/// same order.
pub fn stats_from(result: Vec<(String, DeckStatsDto)>) -> (r: Vec<(String, DeckStats)>)
    ensures
        same_stats(r@, result@),
        r@.len() == result@.len(),
        forall|i: int|
            0 <= i < r@.len() ==> {
                &&& (#[trigger] r@[i]).0@ == result@[i].0@
                &&& r@[i].1.deck_id == result@[i].1.deck_id
                &&& r@[i].1.new_count == result@[i].1.new_count
                &&& r@[i].1.learn_count == result@[i].1.learn_count
                &&& r@[i].1.review_count == result@[i].1.review_count
                &&& r@[i].1.total_in_deck == result@[i].1.total_in_deck
            },
{
    let mut r: Vec<(String, DeckStats)> = Vec::new();
    let mut i: usize = 0;
    while i < result.len()
        invariant
            i <= result.len(),
            r@.len() == i,
            forall|k: int|
                0 <= k < i ==> {
                    &&& (#[trigger] r@[k]).0@ == result@[k].0@
                    &&& r@[k].1.deck_id == result@[k].1.deck_id
                    &&& r@[k].1.new_count == result@[k].1.new_count
                    &&& r@[k].1.learn_count == result@[k].1.learn_count
                    &&& r@[k].1.review_count == result@[k].1.review_count
                    &&& r@[k].1.total_in_deck == result@[k].1.total_in_deck
                },
        decreases result.len() - i,
    {
        let dto = &result[i].1;
        let stats = DeckStats::from(
            DeckStatsDto {
                deck_id: dto.deck_id,
                new_count: dto.new_count,
                learn_count: dto.learn_count,
                review_count: dto.review_count,
                total_in_deck: dto.total_in_deck,
            },
        );
        r.push((result[i].0.clone(), stats));
        i += 1;
    }
    r
}

/// The counts of the first deck of a result; a result without decks is a
/// failure.
pub fn first_stats(stats: Vec<(String, DeckStats)>) -> (r: Result<DeckStats, AnkiError>)
    ensures
        r is Ok <==> stats@.len() > 0,
        r matches Ok(s) ==> s == stats@[0].1,
        r matches Err(e) ==> e@ == AnkiErrorView::UnknownError("No stats found for deck"@),
{
    let mut stats = stats;
    if stats.len() == 0 {
        Err(AnkiError::UnknownError(String::from_str("No stats found for deck")))
    } else {
        let first = stats.swap_remove(0);
        Ok(first.1)
    }
}

/// The name of a deck to create: an empty name is refused.
pub fn create_deck_params(name: &str) -> (r: Result<CreateDeckParams, AnkiError>)
    ensures
        r is Ok <==> name@.len() > 0,
        r matches Ok(p) ==> p.deck@ == name@,
        r matches Err(e) ==> e@ == AnkiErrorView::ValidationError("Deck name cannot be empty"@),
{
    if name.is_empty() {
        Err(AnkiError::validation("Deck name cannot be empty"))
    } else {
        Ok(CreateDeckParams { deck: String::from_str(name) })
    }
}

/// The search for the cards of the deck `deck_name`.
pub fn cards_in_deck_params(deck_name: &str) -> (r: FindCardsParams)
    ensures
        r.query@ == QueryBuilderView::empty().with_part(deck_term(deck_name@)).query(),
{
    let query = QueryBuilder::new().in_deck(deck_name).build();
    FindCardsParams { query: query.to_string() }
}

/// Copies the strings of a slice of string slices.
pub fn owned_strings(items: &[&str]) -> (r: Vec<String>)
    ensures
        r@.len() == items@.len(),
        forall|i: int| 0 <= i < r@.len() ==> (#[trigger] r@[i])@ == items@[i]@,
{
    let mut r: Vec<String> = Vec::new();
    let mut i: usize = 0;
    while i < items.len()
        invariant
            i <= items.len(),
            r@.len() == i,
            forall|k: int| 0 <= k < i ==> (#[trigger] r@[k])@ == items@[k]@,
        decreases items.len() - i,
    {
        r.push(String::from_str(items[i]));
        i += 1;
    }
    r
}

/// What is sent is a search for cards with the text `query`.
pub open spec fn sends_card_query(params: Option<Params>, query: Seq<char>) -> bool {
    match params {
        Some(Params::FindCards(p)) => p.query@ == query,
        _ => false,
    }
}

/// What is sent is the name `name` of a deck to create.
pub open spec fn sends_new_deck(params: Option<Params>, name: Seq<char>) -> bool {
    match params {
        Some(Params::CreateDeck(p)) => p.deck@ == name,
        _ => false,
    }
}

/// `r` is what an answer gives that is read as the identifier of a deck.
pub open spec fn reads_deck_id(
    answer: Result<Reply, AnkiError>,
    r: Result<DeckId, AnkiError>,
) -> bool {
    match answer {
        Ok(Reply::Number(n)) => r matches Ok(id) && id == DeckId(n),
        Ok(_) => r matches Err(e) && e@ == unexpected_shape(),
        Err(err) => r matches Err(e) && e == err,
    }
}

/// The views of a slice of string slices.
pub open spec fn given_names(items: Seq<&str>) -> Seq<Seq<char>> {
    items.map_values(|s: &str| s@)
}

/// What is sent is the deck named `name`, to be deleted with its cards
/// where `cards_too` says so.
pub open spec fn sends_deleted(params: Option<Params>, name: Seq<char>, cards_too: bool) -> bool {
    match params {
        Some(Params::DeleteDeck(p)) => texts(p.decks@) == seq![name] && p.cards_too == cards_too,
        _ => false,
    }
}

/// What is sent are the names `names` of the decks whose counts are asked
/// for.
pub open spec fn sends_stats_names(params: Option<Params>, names: Seq<Seq<char>>) -> bool {
    match params {
        Some(Params::DeckStats(p)) => texts(p.decks@) == names,
        _ => false,
    }
}

/// `configs` are the option groups `list`, one by one and in order.
pub open spec fn same_configs(configs: Seq<DeckConfig>, list: Seq<DeckConfigDto>) -> bool {
    configs.len() == list.len() && forall|i: int|
        0 <= i < configs.len() ==> {
            &&& (#[trigger] configs[i]).id == list[i].id
            &&& configs[i].name@ == list[i].name@
            &&& configs[i].reuse_if_possible == list[i].reuse_if_possible
            &&& configs[i].disable_auto_qe == list[i].disable_auto_qe
        }
}

/// `stats` are the counts `list` by deck, one by one and in order.
pub open spec fn same_stats(
    stats: Seq<(String, DeckStats)>,
    list: Seq<(String, DeckStatsDto)>,
) -> bool {
    stats.len() == list.len() && forall|i: int|
        0 <= i < stats.len() ==> {
            &&& (#[trigger] stats[i]).0@ == list[i].0@
            &&& stats[i].1.deck_id == list[i].1.deck_id
            &&& stats[i].1.new_count == list[i].1.new_count
            &&& stats[i].1.learn_count == list[i].1.learn_count
            &&& stats[i].1.review_count == list[i].1.review_count
            &&& stats[i].1.total_in_deck == list[i].1.total_in_deck
        }
}

/// `r` is what an answer gives that is read as decks: one for every name
/// with its identifier, in the same order.
pub open spec fn reads_decks(
    answer: Result<Reply, AnkiError>,
    r: Result<Vec<Deck>, AnkiError>,
) -> bool {
    match answer {
        Ok(Reply::NamesAndIds(pairs)) => r matches Ok(decks) && deck_views(decks@) == decks_of(
            pairs@,
        ),
        Ok(_) => r matches Err(e) && e@ == unexpected_shape(),
        Err(err) => r matches Err(e) && e == err,
    }
}

/// `r` is what an answer gives that is read as option groups.
pub open spec fn reads_configs(
    answer: Result<Reply, AnkiError>,
    r: Result<Vec<DeckConfig>, AnkiError>,
) -> bool {
    match answer {
        Ok(Reply::DeckConfigs(c)) => r matches Ok(configs) && same_configs(
            configs@,
            c.config_list@,
        ),
        Ok(_) => r matches Err(e) && e@ == unexpected_shape(),
        Err(err) => r matches Err(e) && e == err,
    }
}

/// `r` is what an answer gives that is read as counts by deck.
pub open spec fn reads_stats(
    answer: Result<Reply, AnkiError>,
    r: Result<Vec<(String, DeckStats)>, AnkiError>,
) -> bool {
    match answer {
        Ok(Reply::DeckStats(s)) => r matches Ok(stats) && same_stats(stats@, s@),
        Ok(_) => r matches Err(e) && e@ == unexpected_shape(),
        Err(err) => r matches Err(e) && e == err,
    }
}

/// Among `decks` there is one named `name`.
pub open spec fn has_deck_named(decks: Seq<DeckView>, name: Seq<char>) -> bool {
    exists|i: int| is_first_deck_named(decks, name, i)
}

/// `found` is the first of `decks` with the name `name`, or nothing where
/// none has that name.
pub open spec fn picked_by_name(decks: Seq<Deck>, name: Seq<char>, found: Option<Deck>) -> bool {
    &&& found is Some <==> has_deck_named(deck_views(decks), name)
    &&& found matches Some(d) ==> exists|i: int|
        is_first_deck_named(deck_views(decks), name, i) && d@ == decks[i]@
}

/// `found` is the first of `decks` with the identifier `id`, or nothing
/// where none has that identifier.
pub open spec fn picked_by_id(decks: Seq<Deck>, id: u64, found: Option<Deck>) -> bool {
    &&& found is Some <==> exists|i: int| is_first_deck_with_id(deck_views(decks), id, i)
    &&& found matches Some(d) ==> exists|i: int|
        is_first_deck_with_id(deck_views(decks), id, i) && d@ == decks[i]@
}

/// `r` is what the counts of the first deck of `all` are: a failure where
/// `all` is one or holds no deck.
pub open spec fn takes_first(
    all: Result<Vec<(String, DeckStats)>, AnkiError>,
    r: Result<DeckStats, AnkiError>,
) -> bool {
    match all {
        Ok(stats) => {
            &&& r is Ok <==> stats@.len() > 0
            &&& r matches Ok(s) ==> s == stats@[0].1
            &&& r matches Err(e) ==> e@ == AnkiErrorView::UnknownError("No stats found for deck"@)
        },
        Err(err) => r matches Err(e) && e == err,
    }
}

/// The client for decks.
pub struct DeckClient<S: RequestSender> {
    sender: S,
}

impl<S: RequestSender> DeckClient<S> {
    /// The sender through which the client talks.
    pub closed spec fn sender(self) -> S {
        self.sender
    }

    /// The client's sender hands back `answer` for the action named
    /// `action` with `params`, asked for in the shape `expect`.
    pub open spec fn asked(
        &self,
        action: Seq<char>,
        params: Option<Params>,
        expect: ReplyKind,
        answer: Result<Reply, AnkiError>,
    ) -> bool {
        self.sender().answers(action, params, expect, answer)
    }

    /// `r` is what the client reads as the decks of the collection from
    /// what its sender answers when it is asked for them.
    pub open spec fn got_all(&self, r: Result<Vec<Deck>, AnkiError>) -> bool {
        exists|answer: Result<Reply, AnkiError>|
            #[trigger] self.asked("deckNamesAndIds"@, None, ReplyKind::NamesAndIds, answer)
                && reads_decks(answer, r)
    }

    /// `r` is what the client reads as the counts of the decks named
    /// `names` from what its sender answers when it is asked for them.
    pub open spec fn got_stats(
        &self,
        names: Seq<Seq<char>>,
        r: Result<Vec<(String, DeckStats)>, AnkiError>,
    ) -> bool {
        exists|params: Option<Params>, answer: Result<Reply, AnkiError>|
            #[trigger] self.asked("getDeckStats"@, params, ReplyKind::DeckStats, answer)
                && sends_stats_names(params, names) && reads_stats(answer, r)
    }

    /// The client that talks through `sender`.
    pub fn new(sender: S) -> (r: DeckClient<S>)
        ensures
            r.sender() == sender,
    {
        DeckClient { sender }
    }

    /// Hands a request to the sender and gives what it answers.
    fn ask(&self, action: &str, params: Option<Params>, expect: ReplyKind) -> (r: Result<
        Reply,
        AnkiError,
    >)
        ensures
            self.asked(action@, params, expect, r),
    {
        self.sender.send(action, params, expect)
    }

    /// All decks of the collection: the sender is asked for
    /// `deckNamesAndIds` without parameters, and every name that it answers
    /// gives a deck with its identifier, in the order of the answer.
    pub fn get_all(&self) -> (r: Result<Vec<Deck>, AnkiError>)
        ensures
            self.got_all(r),
    {
        let reply = self.ask("deckNamesAndIds", None, ReplyKind::NamesAndIds);
        let pairs = expect_names_and_ids(reply)?;
        Ok(decks_from(&pairs))
    }

    /// The deck with the given name, if there is one: the decks are fetched
    /// as [`DeckClient::get_all`] says, and the first of them with that
    /// name is given. A failure to fetch them is handed on.
    pub fn get_by_name(&self, name: &str) -> (r: Result<Option<Deck>, AnkiError>)
        ensures
            r matches Ok(Some(d)) ==> d@.name == name@,
            exists|all: Result<Vec<Deck>, AnkiError>|
                #[trigger] self.got_all(all) && match all {
                    Ok(decks) => r matches Ok(found) && picked_by_name(decks@, name@, found),
                    Err(err) => r matches Err(e) && e == err,
                },
    {
        let all = self.get_all();
        let decks = all?;
        Ok(find_deck_by_name(&decks, name))
    }

    /// The deck with the given identifier, if there is one: the decks are
    /// fetched as [`DeckClient::get_all`] says, and the first of them with
    /// that identifier is given. A failure to fetch them is handed on.
    pub fn get_by_id(&self, id: DeckId) -> (r: Result<Option<Deck>, AnkiError>)
        ensures
            r matches Ok(Some(d)) ==> d@.id == id.0,
            exists|all: Result<Vec<Deck>, AnkiError>|
                #[trigger] self.got_all(all) && match all {
                    Ok(decks) => r matches Ok(found) && picked_by_id(decks@, id.0, found),
                    Err(err) => r matches Err(e) && e == err,
                },
    {
        let all = self.get_all();
        let decks = all?;
        Ok(find_deck_by_id(&decks, id))
    }

    /// Creates a deck and gives its identifier. An empty name is refused
    /// before anything is sent; otherwise the sender is asked for
    /// `createDeck` with the name, and the number that it answers is the
    /// identifier.
    pub fn create(&self, name: &str) -> (r: Result<DeckId, AnkiError>)
        ensures
            name@.len() == 0 ==> (r matches Err(e) && e@ == AnkiErrorView::ValidationError(
                "Deck name cannot be empty"@,
            )),
            name@.len() > 0 ==> exists|params: Option<Params>, answer: Result<Reply, AnkiError>|
                #[trigger] self.asked("createDeck"@, params, ReplyKind::Number, answer)
                    && sends_new_deck(params, name@) && reads_deck_id(answer, r),
    {
        let params = create_deck_params(name)?;
        let reply = self.ask("createDeck", Some(Params::CreateDeck(params)), ReplyKind::Number);
        let id = expect_number(reply)?;
        Ok(DeckId(id))
    }

    /// Deletes the deck named `deck_name`, with its cards where `cards_too`
    /// says so: the sender is asked for `deleteDecks` with that one name,
    /// and succeeds where it answers no result.
    pub fn delete(&self, deck_name: &str, cards_too: bool) -> (r: Result<(), AnkiError>)
        ensures
            exists|params: Option<Params>, answer: Result<Reply, AnkiError>|
                #[trigger] self.asked("deleteDecks"@, params, ReplyKind::Nothing, answer)
                    && sends_deleted(params, deck_name@, cards_too) && reads_nothing(answer, r),
    {
        let mut decks: Vec<String> = Vec::new();
        decks.push(String::from_str(deck_name));
        assert(texts(decks@) =~= seq![deck_name@]);
        let params = DeleteDeckParams { decks, cards_too };
        let reply = self.ask("deleteDecks", Some(Params::DeleteDeck(params)), ReplyKind::Nothing);
        expect_nothing(reply)
    }

    /// The option groups of the collection: the sender is asked for
    /// `getDeckConfig` without parameters, and the groups that it answers
    /// are given one by one, in the order of the answer.
    pub fn get_configurations(&self) -> (r: Result<Vec<DeckConfig>, AnkiError>)
        ensures
            exists|answer: Result<Reply, AnkiError>|
                #[trigger] self.asked("getDeckConfig"@, None, ReplyKind::DeckConfigs, answer)
                    && reads_configs(answer, r),
    {
        let reply = self.ask("getDeckConfig", None, ReplyKind::DeckConfigs);
        let result = expect_deck_configs(reply)?;
        Ok(configurations_from(result))
    }

    /// The tree of decks: the sender is asked for `deckTree` without
    /// parameters, and what it answers is given as it came.
    pub fn get_tree(&self) -> (r: Result<Vec<DeckTreeNode>, AnkiError>)
        ensures
            exists|answer: Result<Reply, AnkiError>|
                #[trigger] self.asked("deckTree"@, None, ReplyKind::DeckTree, answer)
                    && reads_deck_tree(answer, r),
    {
        let reply = self.ask("deckTree", None, ReplyKind::DeckTree);
        expect_deck_tree(reply)
    }

    /// The counts of one deck: the counts of that deck alone are fetched as
    /// [`DeckClient::get_stats`] says, and the first counts of the answer
    /// are given. An answer without counts is a failure, and a failure to
    /// fetch them is handed on.
    pub fn get_stat(&self, deck_name: &str) -> (r: Result<DeckStats, AnkiError>)
        ensures
            exists|all: Result<Vec<(String, DeckStats)>, AnkiError>|
                #[trigger] self.got_stats(seq![deck_name@], all) && takes_first(all, r),
    {
        let names = [deck_name];
        let all = self.get_stats(&names);
        proof {
            assert(given_names(names@) =~= seq![deck_name@]);
        }
        let stats = all?;
        first_stats(stats)
    }

    /// The counts of several decks, by deck: the sender is asked for
    /// `getDeckStats` with the names of the decks, and the counts that it
    /// answers are given one by one, in the order of the answer.
    pub fn get_stats(&self, deck_names: &[&str]) -> (r: Result<
        Vec<(String, DeckStats)>,
        AnkiError,
    >)
        ensures
            self.got_stats(given_names(deck_names@), r),
    {
        let decks = owned_strings(deck_names);
        assert(texts(decks@) =~= given_names(deck_names@));
        let params = DeckStatsParams { decks };
        let reply = self.ask("getDeckStats", Some(Params::DeckStats(params)), ReplyKind::DeckStats);
        let result = expect_deck_stats(reply)?;
        Ok(stats_from(result))
    }

    /// The cards of the deck named `deck_name`: the sender is asked for
    /// `findCards` with the query for that deck, and the numbers that it
    /// answers are the cards.
    pub fn get_cards_in_deck(&self, deck_name: &str) -> (r: Result<Vec<CardId>, AnkiError>)
        ensures
            exists|params: Option<Params>, answer: Result<Reply, AnkiError>|
                #[trigger] self.asked("findCards"@, params, ReplyKind::Numbers, answer)
                    && sends_card_query(
                    params,
                    QueryBuilderView::empty().with_part(deck_term(deck_name@)).query(),
                ) && reads_card_ids(answer, r),
    {
        let params = cards_in_deck_params(deck_name);
        let reply = self.ask("findCards", Some(Params::FindCards(params)), ReplyKind::Numbers);
        let ids = expect_numbers(reply)?;
        Ok(card_ids_from(&ids))
    }

    /// Whether a deck with the given name exists: the decks are fetched as
    /// [`DeckClient::get_all`] says and looked through for the name. A
    /// failure to fetch them is handed on.
    pub fn deck_exists(&self, name: &str) -> (r: Result<bool, AnkiError>)
        ensures
            exists|all: Result<Vec<Deck>, AnkiError>|
                #[trigger] self.got_all(all) && match all {
                    Ok(decks) => r matches Ok(b) && b == has_deck_named(deck_views(decks@), name@),
                    Err(err) => r matches Err(e) && e == err,
                },
    {
        let all = self.get_all();
        let decks = all?;
        Ok(find_deck_by_name(&decks, name).is_some())
    }
}

} // verus!
