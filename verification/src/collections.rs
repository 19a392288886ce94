//! Small collections of strings that keep the order in which their items
//! first came: a set of tags, and the contents of a note's fields by name.

use crate::text::{str_eq, texts};
use vstd::prelude::*;

verus! {

/// `tags` with `tag` among them: unchanged where it is there already.
pub open spec fn with_tag(tags: Seq<Seq<char>>, tag: Seq<char>) -> Seq<Seq<char>> {
    if tags.contains(tag) {
        tags
    } else {
        tags.push(tag)
    }
}

/// `tags` without `tag`: unchanged where it is not there.
pub open spec fn without_tag(tags: Seq<Seq<char>>, tag: Seq<char>) -> Seq<Seq<char>> {
    if tags.contains(tag) {
        tags.remove(tags.index_of(tag))
    } else {
        tags
    }
}

/// A set of tags, kept in the order in which they were first added.
#[derive(Debug, PartialEq, Eq)]
pub struct TagSet {
    items: Vec<String>,
}

impl View for TagSet {
    type V = Seq<Seq<char>>;

    closed spec fn view(&self) -> Seq<Seq<char>> {
        texts(self.items@)
    }
}

impl Clone for TagSet {
    fn clone(&self) -> (r: TagSet)
        ensures
            r@ == self@,
    {
        let mut items: Vec<String> = Vec::new();
        let mut i: usize = 0;
        while i < self.items.len()
            invariant
                i <= self.items.len(),
                items@.len() == i,
                forall|k: int| 0 <= k < i ==> items@[k]@ == self.items@[k]@,
            decreases self.items.len() - i,
        {
            items.push(self.items[i].clone());
            i += 1;
        }
        assert(texts(items@) =~= self@);
        TagSet { items }
    }
}

impl TagSet {
    /// No tag occurs twice.
    pub open spec fn wf(&self) -> bool {
        self@.no_duplicates()
    }

    /// The set without tags.
    pub fn new() -> (r: TagSet)
        ensures
            r.wf(),
            r@ == Seq::<Seq<char>>::empty(),
    {
        let r = TagSet { items: Vec::new() };
        assert(r@ =~= Seq::<Seq<char>>::empty());
        r
    }

    /// The number of tags.
    pub fn len(&self) -> (n: usize)
        ensures
            n == self@.len(),
    {
        self.items.len()
    }

    /// Whether the set has no tag.
    pub fn is_empty(&self) -> (r: bool)
        ensures
            r == (self@.len() == 0),
    {
        self.items.len() == 0
    }

    /// The tag at place `i` in the order of first addition.
    pub fn get(&self, i: usize) -> (r: &str)
        requires
            i < self@.len(),
        ensures
            r@ == self@[i as int],
    {
        self.items[i].as_str()
    }

    /// The tags, in the order of first addition.
    pub fn to_vec(&self) -> (r: Vec<String>)
        ensures
            texts(r@) == self@,
    {
        let c = self.clone();
        c.items
    }

    /// The place of `tag` in the set.
    fn position(&self, tag: &str) -> (r: Option<usize>)
        ensures
            match r {
                Some(i) => i < self@.len() && self@[i as int] == tag@,
                None => !self@.contains(tag@),
            },
    {
        let mut i: usize = 0;
        while i < self.items.len()
            invariant
                i <= self.items.len(),
                forall|k: int| 0 <= k < i ==> self@[k] != tag@,
            decreases self.items.len() - i,
        {
            if str_eq(self.items[i].as_str(), tag) {
                return Some(i);
            }
            i += 1;
        }
        None
    }

    /// Whether `tag` is in the set.
    pub fn contains(&self, tag: &str) -> (r: bool)
        ensures
            r == self@.contains(tag@),
    {
        self.position(tag).is_some()
    }

    /// Adds `tag` and says whether it was new. A tag that is there already
    /// is not added again.
    pub fn insert(&mut self, tag: String) -> (added: bool)
        requires
            old(self).wf(),
        ensures
            final(self).wf(),
            final(self)@ == with_tag(old(self)@, tag@),
            added == !old(self)@.contains(tag@),
    {
        if self.contains(tag.as_str()) {
            false
        } else {
            self.items.push(tag);
            assert(self@ =~= old(self)@.push(tag@));
            true
        }
    }

    /// Takes `tag` out and says whether it was there.
    pub fn remove(&mut self, tag: &str) -> (removed: bool)
        requires
            old(self).wf(),
        ensures
            final(self).wf(),
            final(self)@ == without_tag(old(self)@, tag@),
            removed == old(self)@.contains(tag@),
    {
        match self.position(tag) {
            Some(i) => {
                proof {
                    old(self)@.index_of_first_ensures(tag@);
                    assert(old(self)@.index_of(tag@) == i);
                }
                self.items.remove(i);
                assert(self@ =~= old(self)@.remove(i as int));
                true
            },
            None => false,
        }
    }
}

/// Adding a tag a second time changes nothing: the set holds it once.
pub proof fn lemma_with_tag_idempotent(tags: Seq<Seq<char>>, tag: Seq<char>)
    requires
        tags.no_duplicates(),
    ensures
        with_tag(with_tag(tags, tag), tag) == with_tag(tags, tag),
        with_tag(tags, tag).no_duplicates(),
        with_tag(tags, tag).filter(|t: Seq<char>| t == tag).len() == 1,
{
    let once = with_tag(tags, tag);
    assert(once.contains(tag)) by {
        if !tags.contains(tag) {
            assert(once[tags.len() as int] == tag);
        }
    }
    lemma_count_of_member(once, tag);
}

/// In a sequence without repetition a member occurs exactly once.
proof fn lemma_count_of_member(s: Seq<Seq<char>>, x: Seq<char>)
    requires
        s.no_duplicates(),
        s.contains(x),
    ensures
        s.filter(|t: Seq<char>| t == x).len() == 1,
    decreases s.len(),
{
    reveal(Seq::filter);
    if s.len() > 0 {
        let front = s.drop_last();
        if s.last() == x {
            assert(!front.contains(x)) by {
                if front.contains(x) {
                    let i = choose|i: int| 0 <= i < front.len() && front[i] == x;
                    assert(s[i] == s[s.len() - 1]);
                }
            }
            lemma_count_of_absent(front, x);
        } else {
            assert(front.contains(x)) by {
                let i = choose|i: int| 0 <= i < s.len() && s[i] == x;
                assert(front[i] == x);
            }
            lemma_count_of_member(front, x);
        }
    }
}

/// Something that is not in a sequence is counted zero times.
proof fn lemma_count_of_absent(s: Seq<Seq<char>>, x: Seq<char>)
    requires
        !s.contains(x),
    ensures
        s.filter(|t: Seq<char>| t == x).len() == 0,
    decreases s.len(),
{
    reveal(Seq::filter);
    if s.len() > 0 {
        let front = s.drop_last();
        assert(!front.contains(x)) by {
            if front.contains(x) {
                let i = choose|i: int| 0 <= i < front.len() && front[i] == x;
                assert(s[i] == x);
            }
        }
        assert(s.last() != x) by {
            assert(s[s.len() - 1] == s.last());
        }
        lemma_count_of_absent(front, x);
    }
}

/// The names under which `entries` hold a content, in order.
pub open spec fn keys(entries: Seq<(Seq<char>, Seq<char>)>) -> Seq<Seq<char>> {
    entries.map_values(|e: (Seq<char>, Seq<char>)| e.0)
}

/// The content that `entries` hold under `key`.
pub open spec fn value_of(entries: Seq<(Seq<char>, Seq<char>)>, key: Seq<char>) -> Option<
    Seq<char>,
> {
    if keys(entries).contains(key) {
        Some(entries[keys(entries).index_of(key)].1)
    } else {
        None
    }
}

/// `entries` with `value` under `key`: in the place of the old content where
/// the key is there already, at the end where it is new.
pub open spec fn with_value(
    entries: Seq<(Seq<char>, Seq<char>)>,
    key: Seq<char>,
    value: Seq<char>,
) -> Seq<(Seq<char>, Seq<char>)> {
    if keys(entries).contains(key) {
        entries.update(keys(entries).index_of(key), (key, value))
    } else {
        entries.push((key, value))
    }
}

/// The views of a sequence of pairs of strings.
pub open spec fn pair_texts(v: Seq<(String, String)>) -> Seq<(Seq<char>, Seq<char>)> {
    v.map_values(|e: (String, String)| (e.0@, e.1@))
}

/// The contents of fields by field name, kept in the order in which the
/// names first came. No name occurs twice.
#[derive(Debug, PartialEq, Eq)]
pub struct FieldValues {
    entries: Vec<(String, String)>,
}

impl View for FieldValues {
    type V = Seq<(Seq<char>, Seq<char>)>;

    closed spec fn view(&self) -> Seq<(Seq<char>, Seq<char>)> {
        pair_texts(self.entries@)
    }
}

impl Clone for FieldValues {
    fn clone(&self) -> (r: FieldValues)
        ensures
            r@ == self@,
    {
        let mut entries: Vec<(String, String)> = Vec::new();
        let mut i: usize = 0;
        while i < self.entries.len()
            invariant
                i <= self.entries.len(),
                entries@.len() == i,
                forall|k: int|
                    0 <= k < i ==> entries@[k].0@ == self.entries@[k].0@ && entries@[k].1@
                        == self.entries@[k].1@,
            decreases self.entries.len() - i,
        {
            entries.push((self.entries[i].0.clone(), self.entries[i].1.clone()));
            i += 1;
        }
        assert(pair_texts(entries@) =~= self@);
        FieldValues { entries }
    }
}

impl FieldValues {
    /// No name occurs twice.
    pub open spec fn wf(&self) -> bool {
        keys(self@).no_duplicates()
    }

    /// The collection without entries.
    pub fn new() -> (r: FieldValues)
        ensures
            r.wf(),
            r@ == Seq::<(Seq<char>, Seq<char>)>::empty(),
    {
        let r = FieldValues { entries: Vec::new() };
        assert(r@ =~= Seq::<(Seq<char>, Seq<char>)>::empty());
        r
    }

    /// The number of entries.
    pub fn len(&self) -> (n: usize)
        ensures
            n == self@.len(),
    {
        self.entries.len()
    }

    /// Whether there is no entry.
    pub fn is_empty(&self) -> (r: bool)
        ensures
            r == (self@.len() == 0),
    {
        self.entries.len() == 0
    }

    /// The name of the entry at place `i`.
    pub fn key_at(&self, i: usize) -> (r: &str)
        requires
            i < self@.len(),
        ensures
            r@ == self@[i as int].0,
    {
        self.entries[i].0.as_str()
    }

    /// The content of the entry at place `i`.
    pub fn value_at(&self, i: usize) -> (r: &str)
        requires
            i < self@.len(),
        ensures
            r@ == self@[i as int].1,
    {
        self.entries[i].1.as_str()
    }

    /// The entries, in order, as pairs of name and content.
    pub fn to_vec(&self) -> (r: Vec<(String, String)>)
        ensures
            pair_texts(r@) == self@,
    {
        let c = self.clone();
        c.entries
    }

    /// The place of the entry under `key`.
    fn position(&self, key: &str) -> (r: Option<usize>)
        ensures
            match r {
                Some(i) => i < self@.len() && self@[i as int].0 == key@,
                None => !keys(self@).contains(key@),
            },
    {
        let mut i: usize = 0;
        while i < self.entries.len()
            invariant
                i <= self.entries.len(),
                forall|k: int| 0 <= k < i ==> keys(self@)[k] != key@,
            decreases self.entries.len() - i,
        {
            if str_eq(self.entries[i].0.as_str(), key) {
                return Some(i);
            }
            i += 1;
        }
        None
    }

    /// Whether there is an entry under `key`.
    pub fn contains_key(&self, key: &str) -> (r: bool)
        ensures
            r == keys(self@).contains(key@),
    {
        match self.position(key) {
            Some(i) => {
                assert(keys(self@)[i as int] == key@);
                true
            },
            None => false,
        }
    }

    /// The content under `key`.
    pub fn get(&self, key: &str) -> (r: Option<&String>)
        requires
            self.wf(),
        ensures
            match r {
                Some(v) => value_of(self@, key@) == Some(v@),
                None => value_of(self@, key@) is None,
            },
    {
        match self.position(key) {
            Some(i) => {
                proof {
                    assert(keys(self@)[i as int] == key@);
                    keys(self@).index_of_first_ensures(key@);
                }
                Some(&self.entries[i].1)
            },
            None => None,
        }
    }

    /// Puts `value` under `key` and says whether the key was new. The last
    /// content written under a name is the one that stays.
    pub fn insert(&mut self, key: String, value: String) -> (added: bool)
        requires
            old(self).wf(),
        ensures
            final(self).wf(),
            final(self)@ == with_value(old(self)@, key@, value@),
            added == !keys(old(self)@).contains(key@),
    {
        match self.position(key.as_str()) {
            Some(i) => {
                proof {
                    assert(keys(self@)[i as int] == key@);
                    keys(self@).index_of_first_ensures(key@);
                }
                self.entries.set(i, (key, value));
                assert(self@ =~= old(self)@.update(i as int, (key@, value@)));
                assert(keys(self@) =~= keys(old(self)@));
                false
            },
            None => {
                self.entries.push((key, value));
                assert(self@ =~= old(self)@.push((key@, value@)));
                assert(keys(self@) =~= keys(old(self)@).push(key@));
                true
            },
        }
    }
}

/// What was written last under a name is what is read under it, and nothing
/// else changes.
pub proof fn lemma_with_value_reads_back(
    entries: Seq<(Seq<char>, Seq<char>)>,
    key: Seq<char>,
    value: Seq<char>,
    other: Seq<char>,
)
    requires
        keys(entries).no_duplicates(),
    ensures
        keys(with_value(entries, key, value)).no_duplicates(),
        value_of(with_value(entries, key, value), key) == Some(value),
        other != key ==> value_of(with_value(entries, key, value), other) == value_of(
            entries,
            other,
        ),
{
    let after = with_value(entries, key, value);
    let ks = keys(entries);
    let ka = keys(after);
    if ks.contains(key) {
        let i = ks.index_of(key);
        assert(ka =~= ks);
        assert(after[i].1 == value);
        if other != key && ks.contains(other) {
            let j = ks.index_of(other);
            assert(after[j] == entries[j]);
        }
    } else {
        assert(ka =~= ks.push(key));
        assert(ka[ks.len() as int] == key);
        assert(ka.contains(key));
        let i = ka.index_of(key);
        assert(i == ks.len()) by {
            if i < ks.len() {
                assert(ks[i] == key);
            }
        }
        if other != key {
            if ks.contains(other) {
                let j = ks.index_of(other);
                assert(ka[j] == other);
                assert(ka.contains(other));
                let j2 = ka.index_of(other);
                assert(j2 == j);
            } else {
                assert(!ka.contains(other)) by {
                    if ka.contains(other) {
                        let j = choose|j: int| 0 <= j < ka.len() && ka[j] == other;
                        assert(ks[j] == other);
                    }
                }
            }
        }
    }
}

} // verus!
