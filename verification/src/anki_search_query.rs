//! Search queries from one builder type whose state parameter says whether
//! a field name waits for its content.

use crate::builders::query::{
    added_term, deck_term, due_term, escape, field_term, interval_term, rated_term, reps_term,
    tag_term, text_term, QueryBuilder,
};
use crate::text::{
    contains_char, decimal, join, join_strings, push_decimal, push_signed_decimal, texts,
};
use std::marker::PhantomData;
use vstd::prelude::*;

verus! {

/// A finished search query.
pub struct AnkiSearchQuery(String);

impl View for AnkiSearchQuery {
    type V = Seq<char>;

    closed spec fn view(&self) -> Seq<char> {
        self.0@
    }
}

impl AnkiSearchQuery {
    /// The text of the query.
    pub fn as_str(&self) -> (r: &str)
        ensures
            r@ == self@,
    {
        self.0.as_str()
    }
}

/// The state of a builder that was given a field name and waits for the
/// content.
pub struct NeedsFieldContent;

/// The state of a builder that can take any term and can be built.
pub struct Ready;

/// The states of a card that a search can ask for.
#[derive(Debug)]
pub enum CardState {
    Due,
    New,
    Learn,
    Review,
    Suspended,
    Buried,
    BuriedSibling,
    BuriedManually,
}

/// The term that asks for cards in `state`.
pub open spec fn state_term(state: CardState) -> Seq<char> {
    match state {
        CardState::Due => "is:due"@,
        CardState::New => "is:new"@,
        CardState::Learn => "is:learn"@,
        CardState::Review => "is:review"@,
        CardState::Suspended => "is:suspended"@,
        CardState::Buried => "is:buried"@,
        CardState::BuriedSibling => "is:buried-sibling"@,
        CardState::BuriedManually => "is:buried-manually"@,
    }
}

/// The colours of the flag that a card can carry.
#[derive(Debug)]
pub enum Flag {
    Red,
    Orange,
    Green,
    Blue,
    Pink,
    Turquoise,
    Purple,
}

/// The number of a flag colour, from 1 for red to 7 for purple.
pub open spec fn flag_ordinal(flag: Flag) -> nat {
    match flag {
        Flag::Red => 1,
        Flag::Orange => 2,
        Flag::Green => 3,
        Flag::Blue => 4,
        Flag::Pink => 5,
        Flag::Turquoise => 6,
        Flag::Purple => 7,
    }
}

impl Flag {
    /// The number of this colour, from 1 for red to 7 for purple.
    pub fn number(&self) -> (n: u8)
        ensures
            n == flag_ordinal(*self),
    {
        match self {
            Flag::Red => 1,
            Flag::Orange => 2,
            Flag::Green => 3,
            Flag::Blue => 4,
            Flag::Pink => 5,
            Flag::Turquoise => 6,
            Flag::Purple => 7,
        }
    }
}

/// What an [`AnkiSearchQueryBuilder`] holds: the terms so far, whether the
/// next term is to be negated, and the field name that waits for its
/// content.
pub struct SearchBuilderView {
    pub parts: Seq<Seq<char>>,
    pub negated: bool,
    pub current_field: Option<Seq<char>>,
}

impl SearchBuilderView {
    /// The builder after `part` was added: with a minus sign in front where
    /// a negation was pending, and with no negation pending afterwards.
    pub open spec fn with_part(self, part: Seq<char>) -> SearchBuilderView {
        SearchBuilderView {
            parts: self.parts.push(
                if self.negated {
                    "-"@ + part
                } else {
                    part
                },
            ),
            negated: false,
            current_field: self.current_field,
        }
    }

    /// The builder after the content for the waiting field name came: the
    /// term of field and content is added and no name waits any more. Where
    /// no name waits, nothing is added.
    pub open spec fn with_content(self, content: Seq<char>) -> SearchBuilderView {
        match self.current_field {
            Some(field) => SearchBuilderView { current_field: None, ..self }.with_part(
                field_term(field, content),
            ),
            None => self,
        }
    }

    /// The text of the query that the builder stands for.
    pub open spec fn query(self) -> Seq<char> {
        join(self.parts, " "@)
    }

    /// The builder that holds nothing.
    pub open spec fn empty() -> SearchBuilderView {
        SearchBuilderView { parts: Seq::empty(), negated: false, current_field: None }
    }
}

/// Collects the terms of a search query. The state parameter changes to
/// [`NeedsFieldContent`] when a field is named and back to [`Ready`] when
/// the content came, so a query cannot be built in between.
#[derive(Debug)]
pub struct AnkiSearchQueryBuilder<State = Ready> {
    parts: Vec<String>,
    negated: bool,
    current_field: Option<String>,
    _state: PhantomData<State>,
}

impl<State> View for AnkiSearchQueryBuilder<State> {
    type V = SearchBuilderView;

    closed spec fn view(&self) -> SearchBuilderView {
        SearchBuilderView {
            parts: texts(self.parts@),
            negated: self.negated,
            current_field: match self.current_field {
                Some(s) => Some(s@),
                None => None,
            },
        }
    }
}

/// `prefix` followed by `rest`.
fn prefixed(prefix: &str, rest: &str) -> (r: String)
    ensures
        r@ == prefix@ + rest@,
{
    let mut r = String::from_str(prefix);
    r.append(rest);
    r
}

/// `prefix` followed by the decimal numeral of `n`.
fn numbered(prefix: &str, n: u32) -> (r: String)
    ensures
        r@ == prefix@ + decimal(n as nat),
{
    let mut r = String::from_str(prefix);
    push_decimal(&mut r, n as u64);
    r
}

impl AnkiSearchQueryBuilder<Ready> {
    /// The builder that holds no term.
    pub fn new() -> (r: AnkiSearchQueryBuilder<Ready>)
        ensures
            r@ == SearchBuilderView::empty(),
    {
        let r = AnkiSearchQueryBuilder {
            parts: Vec::new(),
            negated: false,
            current_field: None,
            _state: PhantomData,
        };
        assert(r@.parts =~= Seq::<Seq<char>>::empty());
        r
    }

    /// Asks for `text` in any field. The text is escaped.
    pub fn text(self, text: &str) -> (r: AnkiSearchQueryBuilder<Ready>)
        ensures
            r@ == self@.with_part(text_term(text@)),
    {
        let mut b = self;
        b.add_part(Self::escape_special_chars(text));
        b.transition()
    }

    /// Names the field in which the next content is searched.
    pub fn field(self, field: &str) -> (r: AnkiSearchQueryBuilder<NeedsFieldContent>)
        ensures
            r@ == (SearchBuilderView { current_field: Some(field@), ..self@ }),
    {
        let mut b = self;
        b.current_field = Some(String::from_str(field));
        b.transition()
    }

    /// Asks for cards with the tag `tag`. The tag is escaped.
    pub fn tag(self, tag: &str) -> (r: AnkiSearchQueryBuilder<Ready>)
        ensures
            r@ == self@.with_part(tag_term(tag@)),
    {
        let mut b = self;
        let escaped = Self::escape_special_chars(tag);
        b.add_part(prefixed("tag:", escaped.as_str()));
        b.transition()
    }

    /// Asks for cards in the deck `deck`. The name is escaped, and stands in
    /// double quotes where it holds a space.
    pub fn deck(self, deck: &str) -> (r: AnkiSearchQueryBuilder<Ready>)
        ensures
            r@ == self@.with_part(deck_term(deck@)),
    {
        let mut b = self;
        let escaped = Self::escape_special_chars(deck);
        if contains_char(deck, ' ') {
            let mut part = prefixed("deck:\"", escaped.as_str());
            part.append("\"");
            b.add_part(part);
        } else {
            b.add_part(prefixed("deck:", escaped.as_str()));
        }
        b.transition()
    }

    /// Asks for cards in the given state.
    pub fn card_state(self, state: CardState) -> (r: AnkiSearchQueryBuilder<Ready>)
        ensures
            r@ == self@.with_part(state_term(state)),
    {
        let state_str = match state {
            CardState::Due => "is:due",
            CardState::New => "is:new",
            CardState::Learn => "is:learn",
            CardState::Review => "is:review",
            CardState::Suspended => "is:suspended",
            CardState::Buried => "is:buried",
            CardState::BuriedSibling => "is:buried-sibling",
            CardState::BuriedManually => "is:buried-manually",
        };
        let mut b = self;
        b.add_part(String::from_str(state_str));
        b.transition()
    }

    /// Negates the term that comes next.
    pub fn not(self) -> (r: AnkiSearchQueryBuilder<Ready>)
        ensures
            r@ == (SearchBuilderView { negated: true, ..self@ }),
    {
        let mut b = self;
        b.negated = true;
        b.transition()
    }

    /// Changes nothing: terms that stand side by side are all asked for.
    pub fn and(self) -> (r: AnkiSearchQueryBuilder<Ready>)
        ensures
            r@ == self@,
    {
        self
    }

    /// Adds the word `or` between the terms before and after.
    pub fn or(self) -> (r: AnkiSearchQueryBuilder<Ready>)
        ensures
            r@ == self@.with_part("or"@),
    {
        let mut b = self;
        b.add_part(String::from_str("or"));
        b.transition()
    }

    /// The query: the terms with one space between neighbours.
    pub fn build(self) -> (q: AnkiSearchQuery)
        ensures
            q@ == self@.query(),
    {
        AnkiSearchQuery(join_strings(&self.parts, " "))
    }

    /// Asks for cards with the given flag.
    pub fn flag(self, flag: Flag) -> (r: AnkiSearchQueryBuilder<Ready>)
        ensures
            r@ == self@.with_part("flag:"@ + decimal(flag_ordinal(flag))),
    {
        let mut b = self;
        b.add_part(numbered("flag:", flag.number() as u32));
        b
    }

    /// Asks for cards with an interval of at least `days` days.
    pub fn prop_interval_greater_than(self, days: u32) -> (r: AnkiSearchQueryBuilder<Ready>)
        ensures
            r@ == self@.with_part(interval_term(days as nat)),
    {
        let mut b = self;
        b.add_part(numbered("prop:ivl>=", days));
        b
    }

    /// Asks for cards that are due in `days` days.
    pub fn prop_due_in(self, days: i32) -> (r: AnkiSearchQueryBuilder<Ready>)
        ensures
            r@ == self@.with_part(due_term(days as int)),
    {
        let mut part = String::from_str("prop:due=");
        push_signed_decimal(&mut part, days);
        let mut b = self;
        b.add_part(part);
        b
    }

    /// Asks for cards with fewer than `count` repetitions.
    pub fn prop_reps_less_than(self, count: u32) -> (r: AnkiSearchQueryBuilder<Ready>)
        ensures
            r@ == self@.with_part(reps_term(count as nat)),
    {
        let mut b = self;
        b.add_part(numbered("prop:reps<", count));
        b
    }

    /// Asks for cards added in the last `days` days.
    pub fn added_in_last_n_days(self, days: u32) -> (r: AnkiSearchQueryBuilder<Ready>)
        ensures
            r@ == self@.with_part(added_term(days as nat)),
    {
        let mut b = self;
        b.add_part(numbered("added:", days));
        b
    }

    /// Asks for cards rated today.
    pub fn rated_today(self) -> (r: AnkiSearchQueryBuilder<Ready>)
        ensures
            r@ == self@.with_part("rated:1"@),
    {
        let mut b = self;
        b.add_part(String::from_str("rated:1"));
        b
    }

    /// Asks for cards rated in the last `days` days.
    pub fn rated_in_last_n_days(self, days: u32) -> (r: AnkiSearchQueryBuilder<Ready>)
        ensures
            r@ == self@.with_part(rated_term(days as nat)),
    {
        let mut b = self;
        b.add_part(numbered("rated:", days));
        b
    }
}

impl AnkiSearchQueryBuilder<NeedsFieldContent> {
    /// Asks for `content` in the field that was named. The content is
    /// escaped.
    pub fn with_content(self, content: &str) -> (r: AnkiSearchQueryBuilder<Ready>)
        ensures
            r@ == self@.with_content(content@),
    {
        let mut b = self;
        let field = b.current_field.take();
        match field {
            Some(field) => {
                let escaped = Self::escape_special_chars(content);
                let mut part = field;
                part.append(":");
                part.append(escaped.as_str());
                b.add_part(part);
            },
            None => {},
        }
        b.transition()
    }
}

impl<State> AnkiSearchQueryBuilder<State> {
    /// Adds a term, with a minus sign in front where a negation is pending.
    pub fn add_part(&mut self, part: String)
        ensures
            final(self)@ == old(self)@.with_part(part@),
    {
        if self.negated {
            self.parts.push(prefixed("-", part.as_str()));
            self.negated = false;
        } else {
            self.parts.push(part);
        }
        assert(self@.parts =~= old(self)@.with_part(part@).parts);
    }

    /// Puts a backslash in front of every special character of `s`.
    pub fn escape_special_chars(s: &str) -> (r: String)
        ensures
            r@ == escape(s@),
    {
        QueryBuilder::escape_special_chars(s)
    }

    /// The same builder in another state.
    pub fn transition<NewState>(self) -> (r: AnkiSearchQueryBuilder<NewState>)
        ensures
            r@ == self@,
    {
        AnkiSearchQueryBuilder {
            parts: self.parts,
            negated: self.negated,
            current_field: self.current_field,
            _state: PhantomData,
        }
    }
}

} // verus!
