//! A small map from strings to strings that remembers insertion order.

use vstd::prelude::*;
use vstd::string::StringExecFns;

verus! {

/// Position of the first pair of `pairs` with key `key`, or `pairs.len()`.
pub open spec fn find_key(pairs: Seq<(Seq<char>, Seq<char>)>, key: Seq<char>) -> int
    decreases pairs.len(),
{
    if pairs.len() == 0 {
        0
    } else if pairs[0].0 == key {
        0
    } else {
        1 + find_key(pairs.drop_first(), key)
    }
}

/// `find_key` gives `k` exactly when no earlier pair has the key and the pair
/// at `k`, if there is one, has it.
pub proof fn lemma_find_key(pairs: Seq<(Seq<char>, Seq<char>)>, key: Seq<char>, k: int)
    requires
        0 <= k <= pairs.len(),
        forall|j: int| 0 <= j < k ==> (#[trigger] pairs[j]).0 != key,
        k < pairs.len() ==> pairs[k].0 == key,
    ensures
        find_key(pairs, key) == k,
    decreases pairs.len(),
{
    if k > 0 {
        lemma_find_key(pairs.drop_first(), key, k - 1);
    }
}

/// The value stored under `key`, if any.
pub open spec fn value_of(pairs: Seq<(Seq<char>, Seq<char>)>, key: Seq<char>) -> Option<
    Seq<char>,
> {
    let k = find_key(pairs, key);
    if 0 <= k < pairs.len() {
        Some(pairs[k].1)
    } else {
        None
    }
}

/// No two pairs share a key.
pub open spec fn distinct_keys(pairs: Seq<(Seq<char>, Seq<char>)>) -> bool {
    forall|i: int, j: int| 0 <= i < j < pairs.len() ==> (#[trigger] pairs[i]).0 != (
    #[trigger] pairs[j]).0
}

/// `pairs` with `value` stored under `key`: in place of the old value where
/// the key is present, at the end otherwise.
pub open spec fn with_entry(
    pairs: Seq<(Seq<char>, Seq<char>)>,
    key: Seq<char>,
    value: Seq<char>,
) -> Seq<(Seq<char>, Seq<char>)> {
    let k = find_key(pairs, key);
    if 0 <= k < pairs.len() {
        pairs.update(k, (key, value))
    } else {
        pairs.push((key, value))
    }
}

/// A map from strings to strings; entries keep the order in which their
/// keys were first inserted.
#[derive(Debug)]
pub struct StringMap {
    entries: Vec<(String, String)>,
}

impl StringMap {
    /// The entries as pairs of texts, in order of first insertion.
    pub closed spec fn pairs(&self) -> Seq<(Seq<char>, Seq<char>)> {
        Seq::new(self.entries@.len(), |i: int| (self.entries@[i].0@, self.entries@[i].1@))
    }

    /// An empty map.
    pub fn new() -> (m: StringMap)
        ensures
            m.pairs().len() == 0,
    {
        StringMap { entries: Vec::new() }
    }

    fn position(&self, key: &str) -> (k: usize)
        ensures
            k == find_key(self.pairs(), key@),
            k <= self.entries@.len(),
    {
        let wanted = String::from_str(key);
        let mut i: usize = 0;
        while i < self.entries.len()
            invariant
                i <= self.entries@.len(),
                wanted@ == key@,
                forall|j: int| 0 <= j < i ==> (#[trigger] self.pairs()[j]).0 != key@,
            decreases self.entries@.len() - i,
        {
            if self.entries[i].0 == wanted {
                proof {
                    assert(self.pairs()[i as int].0 == key@);
                    lemma_find_key(self.pairs(), key@, i as int);
                }
                return i;
            }
            proof {
                assert(self.pairs()[i as int].0 != key@);
            }
            i += 1;
        }
        proof {
            lemma_find_key(self.pairs(), key@, i as int);
        }
        i
    }

    /// Stores `value` under `key`, replacing the value already there.
    pub fn insert(&mut self, key: String, value: String)
        ensures
            final(self).pairs() == with_entry(old(self).pairs(), key@, value@),
    {
        let k = self.position(key.as_str());
        if k < self.entries.len() {
            self.entries.set(k, (key, value));
            proof {
                assert(self.pairs() =~= old(self).pairs().update(k as int, (key@, value@)));
            }
        } else {
            self.entries.push((key, value));
            proof {
                assert(self.pairs() =~= old(self).pairs().push((key@, value@)));
            }
        }
    }

    /// Adds the entry `(key, value)` at the end, whatever is stored already.
    /// Meant for copying the entries of another map in their order.
    pub(crate) fn push_entry(&mut self, key: String, value: String)
        ensures
            final(self).pairs() == old(self).pairs().push((key@, value@)),
    {
        self.entries.push((key, value));
        proof {
            assert(self.pairs() =~= old(self).pairs().push((key@, value@)));
        }
    }

    /// The value stored under `key`.
    pub fn get(&self, key: &str) -> (v: Option<&String>)
        ensures
            match v {
                Some(s) => value_of(self.pairs(), key@) == Some(s@),
                None => value_of(self.pairs(), key@) is None,
            },
    {
        let k = self.position(key);
        if k < self.entries.len() {
            proof {
                assert(self.pairs()[k as int].1 == self.entries@[k as int].1@);
            }
            Some(&self.entries[k].1)
        } else {
            None
        }
    }

    /// Whether a value is stored under `key`.
    pub fn contains_key(&self, key: &str) -> (b: bool)
        ensures
            b == (value_of(self.pairs(), key@) is Some),
    {
        let k = self.position(key);
        k < self.entries.len()
    }

    /// Number of entries.
    pub fn len(&self) -> (n: usize)
        ensures
            n == self.pairs().len(),
    {
        self.entries.len()
    }

    /// Whether the map holds no entry.
    pub fn is_empty(&self) -> (b: bool)
        ensures
            b == (self.pairs().len() == 0),
    {
        self.entries.len() == 0
    }

    /// The entry at position `i` in order of first insertion.
    pub fn entry(&self, i: usize) -> (e: (&String, &String))
        requires
            i < self.pairs().len(),
        ensures
            (e.0@, e.1@) == self.pairs()[i as int],
    {
        (&self.entries[i].0, &self.entries[i].1)
    }
}

impl Default for StringMap {
    fn default() -> (m: StringMap)
        ensures
            m.pairs().len() == 0,
    {
        StringMap::new()
    }
}

/// A lookup that misses the first pair continues in the rest.
proof fn lemma_value_of_rest(pairs: Seq<(Seq<char>, Seq<char>)>, key: Seq<char>)
    requires
        pairs.len() > 0,
        pairs[0].0 != key,
    ensures
        value_of(pairs, key) == value_of(pairs.drop_first(), key),
{
    lemma_find_key_bound(pairs.drop_first(), key);
    let k = find_key(pairs.drop_first(), key);
    if k < pairs.drop_first().len() {
        assert(pairs.drop_first()[k] == pairs[k + 1]);
    }
}

/// After storing `value` under `key`, a lookup of `key` finds `value` and a
/// lookup of any other key finds what it found before.
pub proof fn lemma_with_entry(
    pairs: Seq<(Seq<char>, Seq<char>)>,
    key: Seq<char>,
    value: Seq<char>,
    other: Seq<char>,
)
    ensures
        value_of(with_entry(pairs, key, value), key) == Some(value),
        other != key ==> value_of(with_entry(pairs, key, value), other) == value_of(pairs, other),
    decreases pairs.len(),
{
    let after = with_entry(pairs, key, value);
    if pairs.len() == 0 {
        assert(after =~= seq![(key, value)]);
        assert(after.drop_first() =~= Seq::empty());
        if other != key {
            lemma_value_of_rest(after, other);
        }
    } else if pairs[0].0 == key {
        assert(after =~= pairs.update(0, (key, value)));
        assert(after.drop_first() =~= pairs.drop_first());
        if other != key {
            lemma_value_of_rest(after, other);
            lemma_value_of_rest(pairs, other);
        }
    } else {
        let rest = pairs.drop_first();
        lemma_with_entry(rest, key, value, other);
        lemma_find_key_bound(rest, key);
        assert(after.drop_first() =~= with_entry(rest, key, value));
        assert(after[0] == pairs[0]);
        lemma_value_of_rest(after, key);
        if other != key {
            if pairs[0].0 == other {
            } else {
                lemma_value_of_rest(after, other);
                lemma_value_of_rest(pairs, other);
            }
        }
    }
}

/// `find_key` lies between zero and the number of pairs.
pub proof fn lemma_find_key_bound(pairs: Seq<(Seq<char>, Seq<char>)>, key: Seq<char>)
    ensures
        0 <= find_key(pairs, key) <= pairs.len(),
    decreases pairs.len(),
{
    if pairs.len() > 0 {
        lemma_find_key_bound(pairs.drop_first(), key);
    }
}

} // verus!
