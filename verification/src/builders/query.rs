//! Search queries, put together term by term.
//!
//! A [`QueryBuilder`] collects the terms of a query. Text that the caller
//! supplies is escaped before it enters a term; the words that the builder
//! writes itself (`tag:`, `deck:`, `or` and the like) are not.

use crate::models::deck::Deck;
use crate::models::model::{Field, FieldRef};
use crate::text::{
    contains_char, decimal, join, join_strings, push_char, push_decimal, push_signed_decimal,
    signed_decimal, texts,
};
use vstd::prelude::*;

verus! {

/// The characters that have a meaning of their own in a search.
pub open spec fn is_special(c: char) -> bool {
    c == '"' || c == '*' || c == '_' || c == '\\' || c == '(' || c == ')' || c == ':' || c == '-'
}

/// `s` with a backslash put in front of every special character, and
/// nothing else changed.
pub open spec fn escape(s: Seq<char>) -> Seq<char>
    decreases s.len(),
{
    if s.len() == 0 {
        s
    } else if is_special(s.last()) {
        escape(s.drop_last()).push('\\').push(s.last())
    } else {
        escape(s.drop_last()).push(s.last())
    }
}

/// The number of special characters in `s`.
pub open spec fn specials(s: Seq<char>) -> nat
    decreases s.len(),
{
    if s.len() == 0 {
        0
    } else if is_special(s.last()) {
        specials(s.drop_last()) + 1
    } else {
        specials(s.drop_last())
    }
}

/// `t` with one backslash taken away in front of every special character,
/// read from left to right.
pub open spec fn unescape(t: Seq<char>) -> Seq<char>
    decreases t.len(),
{
    if t.len() == 0 {
        t
    } else if t[0] == '\\' && t.len() >= 2 && is_special(t[1]) {
        seq![t[1]] + unescape(t.skip(2))
    } else {
        seq![t[0]] + unescape(t.skip(1))
    }
}

/// A finished search query.
#[derive(Debug, PartialEq, Eq)]
pub struct Query {
    query_string: String,
}

impl View for Query {
    type V = Seq<char>;

    closed spec fn view(&self) -> Seq<char> {
        self.query_string@
    }
}

impl Clone for Query {
    fn clone(&self) -> (r: Query)
        ensures
            r@ == self@,
    {
        Query { query_string: self.query_string.clone() }
    }
}

impl Query {
    /// The query whose text is `query_string`, taken as it is.
    pub fn new(query_string: String) -> (q: Query)
        ensures
            q@ == query_string@,
    {
        Query { query_string }
    }

    /// The text of the query.
    pub fn as_str(&self) -> (r: &str)
        ensures
            r@ == self@,
    {
        self.query_string.as_str()
    }

    /// The text of the query, as a string of its own.
    pub fn to_string(&self) -> (r: String)
        ensures
            r@ == self@,
    {
        self.query_string.clone()
    }
}

/// The states of a card that a search can ask for.
#[derive(Debug, Clone, Copy, PartialEq, Eq)]
pub enum CardState {
    /// Due for review.
    Due,
    /// Not studied yet.
    New,
    /// In the learning phase.
    Learning,
    /// In the review phase.
    Review,
    /// Suspended.
    Suspended,
    /// Buried.
    Buried,
    /// Buried because a sibling was answered.
    BuriedSibling,
    /// Buried by the user.
    BuriedManual,
}

/// The term that asks for cards in `state`.
pub open spec fn state_token(state: CardState) -> Seq<char> {
    match state {
        CardState::Due => "is:due"@,
        CardState::New => "is:new"@,
        CardState::Learning => "is:learn"@,
        CardState::Review => "is:review"@,
        CardState::Suspended => "is:suspended"@,
        CardState::Buried => "is:buried"@,
        CardState::BuriedSibling => "is:buried-sibling"@,
        CardState::BuriedManual => "is:buried-manually"@,
    }
}

impl CardState {
    /// The term that asks for cards in this state.
    pub fn as_query_str(&self) -> (r: &'static str)
        ensures
            r@ == state_token(*self),
    {
        match self {
            CardState::Due => "is:due",
            CardState::New => "is:new",
            CardState::Learning => "is:learn",
            CardState::Review => "is:review",
            CardState::Suspended => "is:suspended",
            CardState::Buried => "is:buried",
            CardState::BuriedSibling => "is:buried-sibling",
            CardState::BuriedManual => "is:buried-manually",
        }
    }
}

/// The colours of the flag that a card can carry.
#[derive(Debug, Clone, Copy, PartialEq, Eq)]
pub enum Flag {
    Red,
    Orange,
    Green,
    Blue,
    Pink,
    Turquoise,
    Purple,
}

/// The number of a flag colour, from 1 for red to 7 for purple.
pub open spec fn flag_number(flag: Flag) -> nat {
    match flag {
        Flag::Red => 1,
        Flag::Orange => 2,
        Flag::Green => 3,
        Flag::Blue => 4,
        Flag::Pink => 5,
        Flag::Turquoise => 6,
        Flag::Purple => 7,
    }
}

impl Flag {
    /// The number of this colour, from 1 for red to 7 for purple.
    pub fn number(&self) -> (n: u8)
        ensures
            n == flag_number(*self),
            1 <= n <= 7,
    {
        match self {
            Flag::Red => 1,
            Flag::Orange => 2,
            Flag::Green => 3,
            Flag::Blue => 4,
            Flag::Pink => 5,
            Flag::Turquoise => 6,
            Flag::Purple => 7,
        }
    }
}

/// The term that asks for the text `text` in any field.
pub open spec fn text_term(text: Seq<char>) -> Seq<char> {
    escape(text)
}

/// The term that asks for `content` in the field named `field`.
pub open spec fn field_term(field: Seq<char>, content: Seq<char>) -> Seq<char> {
    field + ":"@ + escape(content)
}

/// The term that asks for the tag `tag`.
pub open spec fn tag_term(tag: Seq<char>) -> Seq<char> {
    "tag:"@ + escape(tag)
}

/// The term that asks for the deck `name`; the name stands in double quotes
/// where it holds a space.
pub open spec fn deck_term(name: Seq<char>) -> Seq<char> {
    if name.contains(' ') {
        "deck:\""@ + escape(name) + "\""@
    } else {
        "deck:"@ + escape(name)
    }
}

/// The term that asks for cards with the flag `flag`.
pub open spec fn flag_term(flag: Flag) -> Seq<char> {
    "flag:"@ + decimal(flag_number(flag))
}

/// The term that asks for an interval of at least `days` days.
pub open spec fn interval_term(days: nat) -> Seq<char> {
    "prop:ivl>="@ + decimal(days)
}

/// The term that asks for cards due in `days` days.
pub open spec fn due_term(days: int) -> Seq<char> {
    "prop:due="@ + signed_decimal(days)
}

/// The term that asks for fewer than `count` repetitions.
pub open spec fn reps_term(count: nat) -> Seq<char> {
    "prop:reps<"@ + decimal(count)
}

/// The term that asks for cards added in the last `days` days.
pub open spec fn added_term(days: nat) -> Seq<char> {
    "added:"@ + decimal(days)
}

/// The term that asks for cards rated in the last `days` days.
pub open spec fn rated_term(days: nat) -> Seq<char> {
    "rated:"@ + decimal(days)
}

/// What a [`QueryBuilder`] holds: the terms so far and whether the next term
/// is to be negated.
pub struct QueryBuilderView {
    pub parts: Seq<Seq<char>>,
    pub negated: bool,
}

impl QueryBuilderView {
    /// The builder after `part` was added: with a minus sign in front where
    /// a negation was pending, and with no negation pending afterwards.
    pub open spec fn with_part(self, part: Seq<char>) -> QueryBuilderView {
        QueryBuilderView {
            parts: self.parts.push(
                if self.negated {
                    "-"@ + part
                } else {
                    part
                },
            ),
            negated: false,
        }
    }

    /// The builder with a negation pending.
    pub open spec fn negate(self) -> QueryBuilderView {
        QueryBuilderView { parts: self.parts, negated: true }
    }

    /// The text of the query that the builder stands for: its terms with one
    /// space between neighbours.
    pub open spec fn query(self) -> Seq<char> {
        join(self.parts, " "@)
    }

    /// The builder that holds nothing.
    pub open spec fn empty() -> QueryBuilderView {
        QueryBuilderView { parts: Seq::empty(), negated: false }
    }
}

/// Collects the terms of a search query.
#[derive(Debug)]
pub struct QueryBuilder {
    parts: Vec<String>,
    negated: bool,
}

impl View for QueryBuilder {
    type V = QueryBuilderView;

    closed spec fn view(&self) -> QueryBuilderView {
        QueryBuilderView { parts: texts(self.parts@), negated: self.negated }
    }
}

impl Clone for QueryBuilder {
    fn clone(&self) -> (r: QueryBuilder)
        ensures
            r@ == self@,
    {
        let mut parts: Vec<String> = Vec::new();
        let mut i: usize = 0;
        while i < self.parts.len()
            invariant
                i <= self.parts.len(),
                parts@.len() == i,
                forall|k: int| 0 <= k < i ==> parts@[k]@ == self.parts@[k]@,
            decreases self.parts.len() - i,
        {
            parts.push(self.parts[i].clone());
            i += 1;
        }
        assert(texts(parts@) =~= texts(self.parts@));
        QueryBuilder { parts, negated: self.negated }
    }
}

impl Default for QueryBuilder {
    fn default() -> (r: QueryBuilder)
        ensures
            r@ == QueryBuilderView::empty(),
    {
        QueryBuilder::new()
    }
}

/// `prefix` followed by `rest`.
fn prefixed(prefix: &str, rest: &str) -> (r: String)
    ensures
        r@ == prefix@ + rest@,
{
    let mut r = String::from_str(prefix);
    r.append(rest);
    r
}

/// `prefix` followed by the decimal numeral of `n`.
fn numbered(prefix: &str, n: u32) -> (r: String)
    ensures
        r@ == prefix@ + decimal(n as nat),
{
    let mut r = String::from_str(prefix);
    push_decimal(&mut r, n as u64);
    r
}

impl QueryBuilder {
    /// The builder that holds no term.
    pub fn new() -> (r: QueryBuilder)
        ensures
            r@ == QueryBuilderView::empty(),
    {
        let r = QueryBuilder { parts: Vec::new(), negated: false };
        assert(r@.parts =~= Seq::<Seq<char>>::empty());
        r
    }

    /// Asks for `text` in any field. The text is escaped.
    pub fn text(self, text: &str) -> (r: QueryBuilder)
        ensures
            r@ == self@.with_part(text_term(text@)),
    {
        let mut b = self;
        let escaped = QueryBuilder::escape_special_chars(text);
        b.add_part(escaped);
        b
    }

    /// Names the field in which the next content is searched. The content
    /// has to follow before anything else can be added.
    pub fn field(self, field_name: &str) -> (r: FieldQueryBuilder)
        ensures
            r@ == (self@, field_name@),
    {
        FieldQueryBuilder { builder: self, field_name: String::from_str(field_name) }
    }

    /// Names the field in which the next content is searched, by the field
    /// itself.
    pub fn in_field(self, field: &Field) -> (r: FieldQueryBuilder)
        ensures
            r@ == (self@, field@.name),
    {
        FieldQueryBuilder { builder: self, field_name: String::from_str(field.name()) }
    }

    /// Names the field in which the next content is searched, by a handle on
    /// a field of a model.
    pub fn in_field_ref(self, field_ref: FieldRef<'_>) -> (r: FieldQueryBuilder)
        ensures
            r@ == (self@, field_ref@.field.name),
    {
        FieldQueryBuilder { builder: self, field_name: String::from_str(field_ref.name()) }
    }

    /// Asks for cards with the tag `tag`. The tag is escaped.
    pub fn has_tag(self, tag: &str) -> (r: QueryBuilder)
        ensures
            r@ == self@.with_part(tag_term(tag@)),
    {
        let mut b = self;
        let escaped = QueryBuilder::escape_special_chars(tag);
        b.add_part(prefixed("tag:", escaped.as_str()));
        b
    }

    /// Asks for cards in the deck `deck`. The name is escaped, and stands in
    /// double quotes where it holds a space.
    pub fn in_deck(self, deck: &str) -> (r: QueryBuilder)
        ensures
            r@ == self@.with_part(deck_term(deck@)),
    {
        let mut b = self;
        let escaped = QueryBuilder::escape_special_chars(deck);
        if contains_char(deck, ' ') {
            let mut part = prefixed("deck:\"", escaped.as_str());
            part.append("\"");
            b.add_part(part);
        } else {
            b.add_part(prefixed("deck:", escaped.as_str()));
        }
        b
    }

    /// Asks for cards in the given deck.
    pub fn in_deck_obj(self, deck: &Deck) -> (r: QueryBuilder)
        ensures
            r@ == self@.with_part(deck_term(deck@.name)),
    {
        self.in_deck(deck.name())
    }

    /// Asks for cards in the given state.
    pub fn in_state(self, state: CardState) -> (r: QueryBuilder)
        ensures
            r@ == self@.with_part(state_token(state)),
    {
        let mut b = self;
        b.add_part(String::from_str(state.as_query_str()));
        b
    }

    /// Negates the term that comes next. Said twice in a row it still
    /// negates one term.
    pub fn not(self) -> (r: QueryBuilder)
        ensures
            r@ == self@.negate(),
    {
        let mut b = self;
        b.negated = true;
        b
    }

    /// Changes nothing: terms that stand side by side are all asked for.
    pub fn and(self) -> (r: QueryBuilder)
        ensures
            r@ == self@,
    {
        self
    }

    /// Adds the word `or` between the terms before and after.
    pub fn or(self) -> (r: QueryBuilder)
        ensures
            r@ == self@.with_part("or"@),
    {
        let mut b = self;
        b.add_part(String::from_str("or"));
        b
    }

    /// Asks for cards with the given flag.
    pub fn has_flag(self, flag: Flag) -> (r: QueryBuilder)
        ensures
            r@ == self@.with_part(flag_term(flag)),
    {
        let mut b = self;
        b.add_part(numbered("flag:", flag.number() as u32));
        b
    }

    /// Asks for cards with an interval of at least `days` days.
    pub fn interval_at_least(self, days: u32) -> (r: QueryBuilder)
        ensures
            r@ == self@.with_part(interval_term(days as nat)),
    {
        let mut b = self;
        b.add_part(numbered("prop:ivl>=", days));
        b
    }

    /// Asks for cards that are due in `days` days.
    pub fn due_in(self, days: i32) -> (r: QueryBuilder)
        ensures
            r@ == self@.with_part(due_term(days as int)),
    {
        let mut b = self;
        let mut part = String::from_str("prop:due=");
        push_signed_decimal(&mut part, days);
        b.add_part(part);
        b
    }

    /// Asks for cards with fewer than `count` repetitions.
    pub fn reps_less_than(self, count: u32) -> (r: QueryBuilder)
        ensures
            r@ == self@.with_part(reps_term(count as nat)),
    {
        let mut b = self;
        b.add_part(numbered("prop:reps<", count));
        b
    }

    /// Asks for cards added in the last `days` days.
    pub fn added_in_last_n_days(self, days: u32) -> (r: QueryBuilder)
        ensures
            r@ == self@.with_part(added_term(days as nat)),
    {
        let mut b = self;
        b.add_part(numbered("added:", days));
        b
    }

    /// Asks for cards rated today.
    pub fn rated_today(self) -> (r: QueryBuilder)
        ensures
            r@ == self@.with_part("rated:1"@),
    {
        let mut b = self;
        b.add_part(String::from_str("rated:1"));
        b
    }

    /// Asks for cards rated in the last `days` days.
    pub fn rated_in_last_n_days(self, days: u32) -> (r: QueryBuilder)
        ensures
            r@ == self@.with_part(rated_term(days as nat)),
    {
        let mut b = self;
        b.add_part(numbered("rated:", days));
        b
    }

    /// The query: the terms with one space between neighbours.
    pub fn build(self) -> (q: Query)
        ensures
            q@ == self@.query(),
    {
        Query::new(join_strings(&self.parts, " "))
    }

    /// Adds a term, with a minus sign in front where a negation is pending.
    pub fn add_part(&mut self, part: String)
        ensures
            final(self)@ == old(self)@.with_part(part@),
    {
        if self.negated {
            self.parts.push(prefixed("-", part.as_str()));
            self.negated = false;
        } else {
            self.parts.push(part);
        }
        assert(self@.parts =~= old(self)@.with_part(part@).parts);
    }

    /// Puts a backslash in front of every special character of `s`.
    pub fn escape_special_chars(s: &str) -> (r: String)
        ensures
            r@ == escape(s@),
    {
        let mut result = String::new();
        for c in it: s.chars()
            invariant
                it.seq() == s@,
                result@ == escape(s@.take(it.index())),
        {
            proof {
                let t = s@.take(it.index() + 1);
                assert(t.drop_last() == s@.take(it.index()));
                assert(t.last() == c);
            }
            if c == '"' || c == '*' || c == '_' || c == '\\' || c == '(' || c == ')' || c == ':'
                || c == '-' {
                push_char(&mut result, '\\');
            }
            push_char(&mut result, c);
        }
        proof {
            assert(s@.take(s@.len() as int) == s@);
        }
        result
    }

    /// The builder that asks for cards in the deck `deck`.
    pub fn deck(deck: &str) -> (r: QueryBuilder)
        ensures
            r@ == QueryBuilderView::empty().with_part(deck_term(deck@)),
    {
        QueryBuilder::new().in_deck(deck)
    }

    /// The builder that asks for cards with the tag `tag`.
    pub fn tag(tag: &str) -> (r: QueryBuilder)
        ensures
            r@ == QueryBuilderView::empty().with_part(tag_term(tag@)),
    {
        QueryBuilder::new().has_tag(tag)
    }

    /// The builder that asks for cards in the given state.
    pub fn state(state: CardState) -> (r: QueryBuilder)
        ensures
            r@ == QueryBuilderView::empty().with_part(state_token(state)),
    {
        QueryBuilder::new().in_state(state)
    }

    /// The builder that asks for cards with the given flag.
    pub fn flag(flag: Flag) -> (r: QueryBuilder)
        ensures
            r@ == QueryBuilderView::empty().with_part(flag_term(flag)),
    {
        QueryBuilder::new().has_flag(flag)
    }
}

/// A builder that has been given a field name and waits for the content to
/// search in that field. It offers nothing else, so a query cannot be built
/// while the content is missing.
pub struct FieldQueryBuilder {
    builder: QueryBuilder,
    field_name: String,
}

impl View for FieldQueryBuilder {
    type V = (QueryBuilderView, Seq<char>);

    closed spec fn view(&self) -> (QueryBuilderView, Seq<char>) {
        (self.builder@, self.field_name@)
    }
}

impl FieldQueryBuilder {
    /// Asks for `content` in the field. The content is escaped.
    pub fn is(self, content: &str) -> (r: QueryBuilder)
        ensures
            r@ == self@.0.with_part(field_term(self@.1, content@)),
    {
        self.with_content(content)
    }

    /// Asks for `content` in the field. The content is escaped.
    pub fn contains(self, content: &str) -> (r: QueryBuilder)
        ensures
            r@ == self@.0.with_part(field_term(self@.1, content@)),
    {
        self.with_content(content)
    }

    /// Adds the term made of the field name, a colon and the escaped content.
    pub fn with_content(self, content: &str) -> (r: QueryBuilder)
        ensures
            r@ == self@.0.with_part(field_term(self@.1, content@)),
    {
        let FieldQueryBuilder { builder, field_name } = self;
        let mut builder = builder;
        let escaped = QueryBuilder::escape_special_chars(content);
        let mut part = field_name;
        part.append(":");
        part.append(escaped.as_str());
        builder.add_part(part);
        builder
    }
}

/// Escaping adds one character for every special character.
pub proof fn lemma_escape_len(s: Seq<char>)
    ensures
        escape(s).len() == s.len() + specials(s),
    decreases s.len(),
{
    if s.len() > 0 {
        lemma_escape_len(s.drop_last());
    }
}

/// Escaping a text and then what follows it is escaping the whole.
pub proof fn lemma_escape_concat(a: Seq<char>, b: Seq<char>)
    ensures
        escape(a + b) == escape(a) + escape(b),
    decreases b.len(),
{
    if b.len() == 0 {
        assert(a + b =~= a);
        assert(escape(a) + escape(b) =~= escape(a));
    } else {
        lemma_escape_concat(a, b.drop_last());
        assert((a + b).drop_last() =~= a + b.drop_last());
        assert((a + b).last() == b.last());
        if is_special(b.last()) {
            assert(escape(a + b) =~= escape(a) + escape(b));
        } else {
            assert(escape(a + b) =~= escape(a) + escape(b));
        }
    }
}

/// In the escaped text every character of the text stands where the
/// characters before it and their backslashes put it, a special character
/// has a backslash immediately in front of it, and the escaped text holds
/// nothing but the characters of the text and those backslashes.
pub proof fn lemma_escape_places(s: Seq<char>, i: int)
    requires
        0 <= i < s.len(),
    ensures
        i + specials(s.take(i + 1)) < escape(s).len(),
        escape(s)[i + specials(s.take(i + 1))] == s[i],
        is_special(s[i]) ==> i + specials(s.take(i + 1)) >= 1 && escape(s)[i + specials(
            s.take(i + 1),
        ) - 1] == '\\',
        !is_special(s[i]) ==> specials(s.take(i + 1)) == specials(s.take(i)),
        escape(s).len() == s.len() + specials(s),
    decreases s.len(),
{
    lemma_escape_len(s);
    let front = s.drop_last();
    lemma_escape_len(front);
    if i == s.len() - 1 {
        assert(s.take(i + 1) =~= s);
        assert(s.take(i) =~= front);
    } else {
        lemma_escape_places(front, i);
        assert(s.take(i + 1) =~= front.take(i + 1));
        assert(s.take(i) =~= front.take(i));
        assert(front[i] == s[i]);
    }
}

/// Taking the backslashes in front of special characters away again gives
/// the text that was escaped. This holds of every text, one with
/// backslashes of its own included.
pub proof fn lemma_unescape_escape(s: Seq<char>)
    ensures
        unescape(escape(s)) == s,
    decreases s.len(),
{
    if s.len() > 0 {
        let c = s[0];
        let rest = s.skip(1);
        assert(s =~= seq![c] + rest);
        lemma_escape_concat(seq![c], rest);
        lemma_unescape_escape(rest);
        let head = seq![c];
        assert(head.drop_last() =~= Seq::<char>::empty());
        assert(escape(head.drop_last()) =~= Seq::<char>::empty());
        assert(head.last() == c);
        let t = escape(s);
        if is_special(c) {
            assert(escape(head) =~= seq!['\\', c]);
            assert(t =~= seq!['\\', c] + escape(rest));
            assert(t.skip(2) =~= escape(rest));
            assert(unescape(t) =~= s);
        } else {
            assert(escape(head) =~= seq![c]);
            assert(t =~= seq![c] + escape(rest));
            assert(t.skip(1) =~= escape(rest));
            assert(unescape(t) =~= s);
        }
    }
}

/// The query of a builder that was given one text is that text, escaped.
pub proof fn lemma_query_of_text(text: Seq<char>)
    ensures
        QueryBuilderView::empty().with_part(text_term(text)).query() == escape(text),
{
    let b = QueryBuilderView::empty().with_part(text_term(text));
    assert(b.parts =~= seq![escape(text)]);
}

/// A term that is added to a builder which holds terms already comes after
/// one space, with a minus sign in front where a negation was pending, and
/// what the builder held stays as it was.
pub proof fn lemma_query_grows(b: QueryBuilderView, part: Seq<char>)
    requires
        b.parts.len() > 0,
    ensures
        b.with_part(part).query() == b.query() + " "@ + (if b.negated {
            "-"@ + part
        } else {
            part
        }),
        b.with_part(part).negated == false,
{
    let after = b.with_part(part);
    assert(after.parts.drop_last() =~= b.parts);
}

/// A text without special characters is its own escaped form.
pub proof fn lemma_escape_plain(s: Seq<char>)
    requires
        forall|i: int| 0 <= i < s.len() ==> !is_special(s[i]),
    ensures
        escape(s) == s,
    decreases s.len(),
{
    if s.len() > 0 {
        lemma_escape_plain(s.drop_last());
        assert(escape(s) =~= s);
    }
}

} // verus!
