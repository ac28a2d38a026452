//! The phrase cache: an unbounded, in-memory associative store mapping
//! source phrases to their translations for the lifetime of the process.
//!
//! The store is kept as an association list holding at most one entry per
//! phrase; its abstract value is the map from phrase to translation. The
//! cache itself has no fallible operation.

use vstd::prelude::*;

verus! {

/// An associative store from source phrases to translated phrases.
///
/// Keys are unique; insertion order is irrelevant to the abstract value,
/// which is the map described by `view`.
pub struct PhraseCache {
    entries: Vec<(String, String)>,
}

/// The map described by a sequence of entries; a later entry for a key
/// supersedes an earlier one.
spec fn entry_map(s: Seq<(String, String)>) -> Map<Seq<char>, Seq<char>>
    decreases s.len(),
{
    if s.len() == 0 {
        Map::empty()
    } else {
        entry_map(s.drop_last()).insert(s.last().0@, s.last().1@)
    }
}

impl View for PhraseCache {
    type V = Map<Seq<char>, Seq<char>>;

    closed spec fn view(&self) -> Map<Seq<char>, Seq<char>> {
        entry_map(self.entries@)
    }
}

/// No two entries share a key.
spec fn unique_keys(s: Seq<(String, String)>) -> bool {
    forall|i: int, j: int| 0 <= i < j < s.len() ==> s[i].0@ != s[j].0@
}

/// A key held by no entry is absent from the described map.
proof fn lemma_entry_map_absent(s: Seq<(String, String)>, key: Seq<char>)
    requires
        forall|j: int| 0 <= j < s.len() ==> s[j].0@ != key,
    ensures
        !entry_map(s).contains_key(key),
    decreases s.len(),
{
    if s.len() > 0 {
        assert(forall|j: int| 0 <= j < s.drop_last().len() ==> s.drop_last()[j].0@ != key);
        lemma_entry_map_absent(s.drop_last(), key);
    }
}

/// An entry whose key recurs in no later entry gives that key's value in
/// the described map.
proof fn lemma_entry_map_found(s: Seq<(String, String)>, i: int)
    requires
        0 <= i < s.len(),
        forall|j: int| i < j < s.len() ==> s[j].0@ != s[i].0@,
    ensures
        entry_map(s).contains_key(s[i].0@),
        entry_map(s)[s[i].0@] == s[i].1@,
    decreases s.len(),
{
    if i + 1 < s.len() {
        assert(forall|j: int| i < j < s.drop_last().len() ==> s.drop_last()[j].0@ != s.drop_last()[i].0@);
        lemma_entry_map_found(s.drop_last(), i);
        assert(s.last().0@ != s[i].0@);
    }
}

/// Appending an entry inserts its pair into the described map.
proof fn lemma_entry_map_push(s: Seq<(String, String)>, entry: (String, String))
    ensures
        entry_map(s.push(entry)) == entry_map(s).insert(entry.0@, entry.1@),
{
    assert(s.push(entry).drop_last() =~= s);
    assert(s.push(entry).last() == entry);
}

/// Overwriting the entry that holds a key, when no later entry shares that
/// key, inserts the new pair into the described map.
proof fn lemma_entry_map_update(s: Seq<(String, String)>, i: int, entry: (String, String))
    requires
        0 <= i < s.len(),
        entry.0@ == s[i].0@,
        forall|j: int| i < j < s.len() ==> s[j].0@ != s[i].0@,
    ensures
        entry_map(s.update(i, entry)) == entry_map(s).insert(entry.0@, entry.1@),
    decreases s.len(),
{
    let t = s.update(i, entry);
    if i + 1 == s.len() {
        assert(t.drop_last() =~= s.drop_last());
        assert(t.last() == entry);
        assert(entry_map(s.drop_last()).insert(s.last().0@, s.last().1@).insert(entry.0@, entry.1@)
            =~= entry_map(s.drop_last()).insert(entry.0@, entry.1@));
    } else {
        assert(t.drop_last() =~= s.drop_last().update(i, entry));
        assert(forall|j: int| i < j < s.drop_last().len() ==> s.drop_last()[j].0@ != s.drop_last()[i].0@);
        lemma_entry_map_update(s.drop_last(), i, entry);
        assert(t.last() == s.last());
        assert(s.last().0@ != entry.0@);
        assert(entry_map(s.drop_last()).insert(entry.0@, entry.1@).insert(s.last().0@, s.last().1@)
            =~= entry_map(s.drop_last()).insert(s.last().0@, s.last().1@).insert(entry.0@, entry.1@));
    }
}

impl PhraseCache {
    /// Each phrase occurs in at most one entry.
    #[verifier::type_invariant]
    spec fn well_formed(&self) -> bool {
        unique_keys(self.entries@)
    }

    /// An empty cache.
    pub fn new() -> (cache: PhraseCache)
        ensures
            cache@ == Map::<Seq<char>, Seq<char>>::empty(),
    {
        PhraseCache { entries: Vec::new() }
    }

    /// Return the cached translation of `phrase`, exactly when one is stored.
    /// No side effects.
    pub fn lookup(&self, phrase: &str) -> (result: Option<String>)
        ensures
            match result {
                Some(translation) => self@.contains_key(phrase@)
                    && translation@ == self@[phrase@],
                None => !self@.contains_key(phrase@),
            },
    {
        proof {
            use_type_invariant(&*self);
        }
        let key: String = phrase.to_owned();
        let mut i: usize = 0;
        while i < self.entries.len()
            invariant
                key@ == phrase@,
                i <= self.entries@.len(),
                unique_keys(self.entries@),
                forall|j: int| 0 <= j < i ==> self.entries@[j].0@ != phrase@,
            decreases self.entries@.len() - i,
        {
            if self.entries[i].0 == key {
                proof {
                    lemma_entry_map_found(self.entries@, i as int);
                }
                return Some(self.entries[i].1.clone());
            }
            i = i + 1;
        }
        proof {
            lemma_entry_map_absent(self.entries@, phrase@);
        }
        None
    }

    /// Store, or overwrite, the translation of `phrase`.
    pub fn insert(&mut self, phrase: &str, translation: &str)
        requires
            phrase@.len() > 0,
        ensures
            final(self)@ == old(self)@.insert(phrase@, translation@),
    {
        proof {
            use_type_invariant(&*self);
        }
        let key: String = phrase.to_owned();
        let value: String = translation.to_owned();
        let mut entries: Vec<(String, String)> = Vec::new();
        std::mem::swap(&mut entries, &mut self.entries);
        let ghost s = entries@;
        let mut i: usize = 0;
        while i < entries.len()
            invariant
                entries@ == s,
                s == old(self).entries@,
                i <= s.len(),
                unique_keys(s),
                key@ == phrase@,
                value@ == translation@,
                forall|j: int| 0 <= j < i ==> s[j].0@ != phrase@,
            decreases s.len() - i,
        {
            if entries[i].0 == key {
                entries[i] = (key, value);
                proof {
                    lemma_entry_map_update(s, i as int, entries@[i as int]);
                }
                self.entries = entries;
                return;
            }
            i = i + 1;
        }
        entries.push((key, value));
        proof {
            lemma_entry_map_push(s, entries@.last());
        }
        self.entries = entries;
    }
}

} // verus!
