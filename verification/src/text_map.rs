//! Maps keyed by text, kept as lists of entries.

use crate::text::same_text;
use vstd::prelude::*;

verus! {

/// The map that a list of entries stands for.
pub open spec fn pairs_map<V>(pairs: Seq<(Seq<char>, V)>) -> Map<Seq<char>, V>
    decreases pairs.len(),
{
    if pairs.len() == 0 {
        Map::empty()
    } else {
        pairs_map(pairs.drop_last()).insert(pairs.last().0, pairs.last().1)
    }
}

/// Whether no key stands twice.
pub open spec fn keys_distinct<V>(pairs: Seq<(Seq<char>, V)>) -> bool {
    forall|i: int, j: int| 0 <= i < j < pairs.len() ==> (#[trigger] pairs[i]).0 != (#[trigger] pairs[j]).0
}

/// What a list with distinct keys says of each key.
pub(crate) proof fn lemma_pairs_lookup<V>(pairs: Seq<(Seq<char>, V)>)
    requires
        keys_distinct(pairs),
    ensures
        forall|i: int|
            0 <= i < pairs.len() ==> pairs_map(pairs).dom().contains((#[trigger] pairs[i]).0)
                && pairs_map(pairs)[pairs[i].0] == pairs[i].1,
        forall|k: Seq<char>| #[trigger]
            pairs_map(pairs).dom().contains(k) ==> exists|i: int|
                0 <= i < pairs.len() && (#[trigger] pairs[i]).0 == k,
        pairs_map(pairs).dom().finite(),
        pairs_map(pairs).dom().len() == pairs.len(),
    decreases pairs.len(),
{
    if pairs.len() > 0 {
        let front = pairs.drop_last();
        assert forall|i: int, j: int| 0 <= i < j < front.len() implies (#[trigger] front[i]).0 != (
        #[trigger] front[j]).0 by {
            assert(pairs[i].0 != pairs[j].0);
        }
        lemma_pairs_lookup(front);
        assert forall|i: int| 0 <= i < pairs.len() implies pairs_map(pairs).dom().contains(
            (#[trigger] pairs[i]).0,
        ) && pairs_map(pairs)[pairs[i].0] == pairs[i].1 by {
            if i < front.len() {
                assert(front[i] == pairs[i]);
                assert(pairs[i].0 != pairs[pairs.len() - 1].0);
            }
        }
        assert forall|k: Seq<char>| #[trigger] pairs_map(pairs).dom().contains(k) implies exists|i: int|
            0 <= i < pairs.len() && (#[trigger] pairs[i]).0 == k by {
            if k == pairs.last().0 {
                assert(pairs[pairs.len() - 1].0 == k);
            } else {
                assert(pairs_map(front).dom().contains(k));
                let i = choose|i: int| 0 <= i < front.len() && (#[trigger] front[i]).0 == k;
                assert(pairs[i].0 == k);
            }
        }
        if pairs_map(front).dom().contains(pairs.last().0) {
            let i = choose|i: int| 0 <= i < front.len() && (#[trigger] front[i]).0 == pairs.last().0;
            assert(pairs[i].0 == pairs[pairs.len() - 1].0);
        }
    }
}

/// Replacing the entry at `at` by one with the same key sets that key.
pub(crate) proof fn lemma_pairs_update<V>(pairs: Seq<(Seq<char>, V)>, at: int, value: V)
    requires
        keys_distinct(pairs),
        0 <= at < pairs.len(),
    ensures
        keys_distinct(pairs.update(at, (pairs[at].0, value))),
        pairs_map(pairs.update(at, (pairs[at].0, value))) == pairs_map(pairs).insert(pairs[at].0, value),
{
    let after = pairs.update(at, (pairs[at].0, value));
    let key = pairs[at].0;
    assert forall|i: int, j: int| 0 <= i < j < after.len() implies (#[trigger] after[i]).0 != (
    #[trigger] after[j]).0 by {
        assert(after[i].0 == pairs[i].0 && after[j].0 == pairs[j].0);
    }
    lemma_pairs_lookup(pairs);
    lemma_pairs_lookup(after);
    let want = pairs_map(pairs).insert(key, value);
    assert(after[at].0 == key);
    assert forall|k: Seq<char>| #[trigger] pairs_map(after).dom().contains(k) == want.dom().contains(k) && (
    want.dom().contains(k) ==> pairs_map(after)[k] == want[k]) by {
        if pairs_map(after).dom().contains(k) && k != key {
            let i = choose|i: int| 0 <= i < after.len() && (#[trigger] after[i]).0 == k;
            assert(pairs[i].0 == k);
        }
        if pairs_map(pairs).dom().contains(k) && k != key {
            let i = choose|i: int| 0 <= i < pairs.len() && (#[trigger] pairs[i]).0 == k;
            assert(after[i].0 == k);
        }
    }
    assert(pairs_map(after) =~= want);
}

/// Removing the entry at `at` removes its key.
pub(crate) proof fn lemma_pairs_remove<V>(pairs: Seq<(Seq<char>, V)>, at: int)
    requires
        keys_distinct(pairs),
        0 <= at < pairs.len(),
    ensures
        keys_distinct(pairs.remove(at)),
        pairs_map(pairs.remove(at)) == pairs_map(pairs).remove(pairs[at].0),
{
    let after = pairs.remove(at);
    let key = pairs[at].0;
    assert forall|i: int, j: int| 0 <= i < j < after.len() implies (#[trigger] after[i]).0 != (
    #[trigger] after[j]).0 by {
        let pi = if i < at { i } else { i + 1 };
        let pj = if j < at { j } else { j + 1 };
        assert(after[i] == pairs[pi] && after[j] == pairs[pj]);
    }
    lemma_pairs_lookup(pairs);
    lemma_pairs_lookup(after);
    let want = pairs_map(pairs).remove(key);
    assert forall|k: Seq<char>| #[trigger] pairs_map(after).dom().contains(k) == want.dom().contains(k) && (
    want.dom().contains(k) ==> pairs_map(after)[k] == want[k]) by {
        if pairs_map(after).dom().contains(k) {
            let i = choose|i: int| 0 <= i < after.len() && (#[trigger] after[i]).0 == k;
            let pi = if i < at { i } else { i + 1 };
            assert(pairs[pi] == after[i]);
            assert(pairs[pi].0 == k);
            if k == key {
                assert(pi != at);
                if pi < at {
                    assert(pairs[pi].0 != pairs[at].0);
                } else {
                    assert(pairs[at].0 != pairs[pi].0);
                }
            }
        }
        if want.dom().contains(k) {
            let i = choose|i: int| 0 <= i < pairs.len() && (#[trigger] pairs[i]).0 == k;
            let ni = if i < at { i } else { i - 1 };
            assert(after[ni] == pairs[i]);
            assert(after[ni].0 == k);
        }
    }
    assert(pairs_map(after) =~= want);
}

/// Adding an entry with a new key keeps the keys distinct and sets that key.
pub(crate) proof fn lemma_pairs_push<V>(pairs: Seq<(Seq<char>, V)>, key: Seq<char>, value: V)
    requires
        keys_distinct(pairs),
        forall|i: int| 0 <= i < pairs.len() ==> (#[trigger] pairs[i]).0 != key,
    ensures
        keys_distinct(pairs.push((key, value))),
        pairs_map(pairs.push((key, value))) == pairs_map(pairs).insert(key, value),
{
    let after = pairs.push((key, value));
    assert(after.drop_last() =~= pairs);
    assert forall|i: int, j: int| 0 <= i < j < after.len() implies (#[trigger] after[i]).0 != (
    #[trigger] after[j]).0 by {
        if j < pairs.len() {
            assert(pairs[i].0 != pairs[j].0);
        } else {
            assert(pairs[i].0 != key);
        }
    }
}

/// One entry of a `TextMap`.
#[derive(Debug)]
pub struct TextEntry {
    pub key: String,
    pub value: String,
}

/// A map from texts to texts. No key stands in it twice.
#[derive(Debug)]
pub struct TextMap {
    pub entries: Vec<TextEntry>,
}

/// The pairs that a list of entries stands for.
pub open spec fn entry_pairs(entries: Seq<TextEntry>) -> Seq<(Seq<char>, Seq<char>)> {
    entries.map_values(|e: TextEntry| (e.key@, e.value@))
}

impl View for TextMap {
    type V = Map<Seq<char>, Seq<char>>;

    open spec fn view(&self) -> Map<Seq<char>, Seq<char>> {
        pairs_map(entry_pairs(self.entries@))
    }
}

impl TextMap {
    /// Whether no key stands twice.
    pub open spec fn wf(&self) -> bool {
        keys_distinct(entry_pairs(self.entries@))
    }

    /// A map without entries.
    pub fn new() -> (r: TextMap)
        ensures
            r.wf(),
            r@ == Map::<Seq<char>, Seq<char>>::empty(),
    {
        TextMap { entries: Vec::new() }
    }

    fn find(&self, key: &str) -> (r: Option<usize>)
        ensures
            match r {
                Some(i) => i < self.entries@.len() && self.entries@[i as int].key@ == key@,
                None => forall|i: int| 0 <= i < self.entries@.len() ==> (#[trigger] self.entries@[i]).key@ != key@,
            },
    {
        let mut i: usize = 0;
        while i < self.entries.len()
            invariant
                i <= self.entries.len(),
                forall|k: int| 0 <= k < i ==> (#[trigger] self.entries@[k]).key@ != key@,
            decreases self.entries.len() - i,
        {
            if same_text(self.entries[i].key.as_str(), key) {
                return Some(i);
            }
            i = i + 1;
        }
        None
    }

    /// The value of a key.
    pub fn get(&self, key: &str) -> (r: Option<&str>)
        requires
            self.wf(),
        ensures
            match r {
                Some(value) => self@.contains_key(key@) && self@[key@] == value@,
                None => !self@.contains_key(key@),
            },
    {
        let ghost pairs = entry_pairs(self.entries@);
        proof {
            lemma_pairs_lookup(pairs);
        }
        match self.find(key) {
            Some(i) => {
                proof {
                    assert(pairs[i as int] == (key@, self.entries@[i as int].value@));
                }
                Some(self.entries[i].value.as_str())
            },
            None => {
                proof {
                    if pairs_map(pairs).dom().contains(key@) {
                        let i = choose|i: int| 0 <= i < pairs.len() && (#[trigger] pairs[i]).0 == key@;
                        assert(self.entries@[i].key@ == key@);
                    }
                }
                None
            },
        }
    }

    /// Sets a key.
    pub fn insert(&mut self, key: &str, value: &str)
        requires
            old(self).wf(),
        ensures
            final(self).wf(),
            final(self)@ == old(self)@.insert(key@, value@),
    {
        let ghost pairs = entry_pairs(self.entries@);
        let entry = TextEntry { key: key.to_owned(), value: value.to_owned() };
        match self.find(key) {
            Some(i) => {
                proof {
                    lemma_pairs_update(pairs, i as int, value@);
                }
                self.entries.set(i, entry);
                proof {
                    assert(entry_pairs(self.entries@) =~= pairs.update(i as int, (key@, value@)));
                }
            },
            None => {
                proof {
                    assert forall|i: int| 0 <= i < pairs.len() implies (#[trigger] pairs[i]).0 != key@ by {
                        assert(self.entries@[i].key@ != key@);
                    }
                    lemma_pairs_push(pairs, key@, value@);
                }
                self.entries.push(entry);
                proof {
                    assert(entry_pairs(self.entries@) =~= pairs.push((key@, value@)));
                }
            },
        }
    }

    /// Removes every key that has the value `value`.
    pub fn remove_value(&mut self, value: &str)
        requires
            old(self).wf(),
        ensures
            final(self).wf(),
            final(self)@ == without_value(old(self)@, value@),
    {
        let ghost whole = self@;
        let mut i: usize = 0;
        proof {
            assert(entry_pairs(self.entries@).take(0) =~= Seq::empty());
        }
        while i < self.entries.len()
            invariant
                i <= self.entries@.len(),
                self.wf(),
                without_value(self@, value@) == without_value(whole, value@),
                forall|k: int| 0 <= k < i ==> (#[trigger] self.entries@[k]).value@ != value@,
            decreases self.entries@.len() - i,
        {
            if same_text(self.entries[i].value.as_str(), value) {
                let ghost pairs = entry_pairs(self.entries@);
                proof {
                    lemma_pairs_lookup(pairs);
                    lemma_pairs_remove(pairs, i as int);
                    assert(pairs_map(pairs)[pairs[i as int].0] == value@);
                    assert(without_value(pairs_map(pairs).remove(pairs[i as int].0), value@)
                        =~= without_value(pairs_map(pairs), value@));
                }
                let ghost before = self.entries@;
                self.entries.remove(i);
                proof {
                    assert(entry_pairs(self.entries@) =~= pairs.remove(i as int));
                    assert forall|k: int| 0 <= k < i implies (#[trigger] self.entries@[k]).value@ != value@ by {
                        assert(self.entries@[k] == before[k]);
                    }
                }
            } else {
                i = i + 1;
            }
        }
        proof {
            let pairs = entry_pairs(self.entries@);
            lemma_pairs_lookup(pairs);
            assert forall|k: Seq<char>| #[trigger] self@.dom().contains(k) implies self@[k] != value@ by {
                let j = choose|j: int| 0 <= j < pairs.len() && (#[trigger] pairs[j]).0 == k;
                assert(self.entries@[j].value@ != value@);
            }
            assert(without_value(self@, value@) =~= self@);
        }
    }
}

/// A map without the keys that have the value `value`.
pub open spec fn without_value(m: Map<Seq<char>, Seq<char>>, value: Seq<char>) -> Map<Seq<char>, Seq<char>> {
    Map::new(|k: Seq<char>| m.dom().contains(k) && m[k] != value, |k: Seq<char>| m[k])
}

impl Clone for TextMap {
    fn clone(&self) -> (r: TextMap)
        ensures
            r@ == self@,
            self.wf() ==> r.wf(),
            entry_pairs(r.entries@) == entry_pairs(self.entries@),
    {
        let mut entries: Vec<TextEntry> = Vec::new();
        let mut i: usize = 0;
        while i < self.entries.len()
            invariant
                i <= self.entries.len(),
                entries.len() == i,
                forall|k: int|
                    0 <= k < i ==> (#[trigger] entries@[k]).key@ == self.entries@[k].key@
                        && entries@[k].value@ == self.entries@[k].value@,
            decreases self.entries.len() - i,
        {
            entries.push(
                TextEntry {
                    key: self.entries[i].key.clone(),
                    value: self.entries[i].value.clone(),
                },
            );
            i = i + 1;
        }
        proof {
            assert(entry_pairs(entries@) =~= entry_pairs(self.entries@));
        }
        TextMap { entries }
    }
}

/// A value that was put under a key is found there, and every other key keeps what it had.
pub proof fn values_are_found_under_their_key(
    map: &mut TextMap,
    key: &str,
    value: &str,
    found: Option<&str>,
    other: Seq<char>,
)
    requires
        call_ensures(TextMap::insert, (map, key, value), ()),
        call_ensures(TextMap::get, (final(map), key), found),
    ensures
        found matches Some(text) && text@ == value@,
        other != key@ ==> (final(map)@.contains_key(other) <==> old(map)@.contains_key(other)) && final(map)@[other] == old(map)@[other],
{
}

/// After a value was removed no key has it, and every key with another value keeps it.
pub proof fn removed_values_are_gone(map: &mut TextMap, value: &str, key: Seq<char>)
    requires
        call_ensures(TextMap::remove_value, (map, value), ()),
    ensures
        final(map)@.contains_key(key) <==> old(map)@.contains_key(key) && old(map)@[key] != value@,
        final(map)@.contains_key(key) ==> final(map)@[key] == old(map)@[key],
{
}

} // verus!
