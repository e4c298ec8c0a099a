//! The in-memory configuration dictionary.
//!
//! A mapping from string keys to opaque JSON-compatible values, stored as an
//! association list with pairwise-distinct keys and viewed as a
//! `Map<Seq<char>, serde_json::Value>`.  Insertion overwrites by key, and
//! merging another dictionary is a key-overwrite union.

use vstd::prelude::*;

use crate::str_eq;

verus! {

/// No two entries share a key.
pub open spec fn pairs_unique(s: Seq<(String, serde_json::Value)>) -> bool {
    forall|i: int, j: int| 0 <= i < j < s.len() ==> s[i].0@ != s[j].0@
}

/// The mapping an entry list denotes; a later entry wins over an earlier
/// one with the same key.
pub open spec fn pairs_map(s: Seq<(String, serde_json::Value)>) -> Map<
    Seq<char>,
    serde_json::Value,
>
    decreases s.len(),
{
    if s.len() == 0 {
        Map::empty()
    } else {
        pairs_map(s.drop_last()).insert(s.last().0@, s.last().1)
    }
}

/// A key is in the mapping exactly when some entry carries it, and under
/// distinct keys each entry's value is the one mapped.
pub proof fn lemma_pairs_map_characterization(s: Seq<(String, serde_json::Value)>)
    ensures
        forall|k: Seq<char>| #[trigger]
            pairs_map(s).dom().contains(k) ==> exists|j: int| 0 <= j < s.len() && s[j].0@ == k,
        forall|j: int| 0 <= j < s.len() ==> pairs_map(s).dom().contains(#[trigger] s[j].0@),
        pairs_unique(s) ==> forall|j: int|
            0 <= j < s.len() ==> pairs_map(s)[#[trigger] s[j].0@] == s[j].1,
    decreases s.len(),
{
    if s.len() > 0 {
        let t = s.drop_last();
        lemma_pairs_map_characterization(t);
        assert forall|k: Seq<char>| #[trigger] pairs_map(s).dom().contains(k) implies exists|j: int|
            0 <= j < s.len() && s[j].0@ == k by {
            if k == s.last().0@ {
                assert(s[s.len() - 1].0@ == k);
            } else {
                assert(pairs_map(t).dom().contains(k));
                let j = choose|j: int| 0 <= j < t.len() && t[j].0@ == k;
                assert(t[j] == s[j]);
                assert(s[j].0@ == k);
            }
        }
        assert forall|j: int| 0 <= j < s.len() implies pairs_map(s).dom().contains(
            #[trigger] s[j].0@,
        ) by {
            if j < s.len() - 1 {
                assert(t[j] == s[j]);
                assert(pairs_map(t).dom().contains(t[j].0@));
            }
        }
        if pairs_unique(s) {
            assert(pairs_unique(t));
            assert forall|j: int| 0 <= j < s.len() implies pairs_map(s)[#[trigger] s[j].0@]
                == s[j].1 by {
                if j < s.len() - 1 {
                    assert(s[j].0@ != s.last().0@);
                    assert(pairs_map(t)[t[j].0@] == t[j].1);
                }
            }
        }
    }
}

/// Replacing the entry that carries a key denotes inserting the new value
/// under that key.
pub proof fn lemma_pairs_map_update(
    s: Seq<(String, serde_json::Value)>,
    i: int,
    p: (String, serde_json::Value),
)
    requires
        pairs_unique(s),
        0 <= i < s.len(),
        p.0@ == s[i].0@,
    ensures
        pairs_unique(s.update(i, p)),
        pairs_map(s.update(i, p)) == pairs_map(s).insert(p.0@, p.1),
    decreases s.len(),
{
    let s2 = s.update(i, p);
    assert(forall|j: int| 0 <= j < s.len() ==> s2[j].0@ == s[j].0@);
    if i == s.len() - 1 {
        assert(s2.drop_last() =~= s.drop_last());
        assert(pairs_map(s).insert(p.0@, p.1) =~= pairs_map(s.drop_last()).insert(p.0@, p.1));
    } else {
        let t = s.drop_last();
        assert(pairs_unique(t));
        assert(s2.drop_last() =~= t.update(i, p));
        lemma_pairs_map_update(t, i, p);
        assert(s2.last() == s.last());
        assert(p.0@ != s.last().0@);
        assert(pairs_map(t).insert(p.0@, p.1).insert(s.last().0@, s.last().1) =~= pairs_map(
            t,
        ).insert(s.last().0@, s.last().1).insert(p.0@, p.1));
    }
}

/// Appending an entry with a fresh key denotes inserting it.
pub proof fn lemma_pairs_map_push(s: Seq<(String, serde_json::Value)>, p: (String, serde_json::Value))
    requires
        pairs_unique(s),
        forall|j: int| 0 <= j < s.len() ==> s[j].0@ != p.0@,
    ensures
        pairs_unique(s.push(p)),
        pairs_map(s.push(p)) == pairs_map(s).insert(p.0@, p.1),
{
    assert(s.push(p).drop_last() =~= s);
}

/// Under distinct keys the mapping has exactly one key per entry.
pub proof fn lemma_pairs_map_len(s: Seq<(String, serde_json::Value)>)
    requires
        pairs_unique(s),
    ensures
        pairs_map(s).dom().finite(),
        pairs_map(s).dom().len() == s.len(),
    decreases s.len(),
{
    broadcast use vstd::set::axiom_set_insert_len;

    if s.len() > 0 {
        let t = s.drop_last();
        assert(pairs_unique(t));
        lemma_pairs_map_len(t);
        lemma_pairs_map_characterization(t);
        assert(!pairs_map(t).dom().contains(s.last().0@)) by {
            if pairs_map(t).dom().contains(s.last().0@) {
                let j = choose|j: int| 0 <= j < t.len() && t[j].0@ == s.last().0@;
                assert(s[j].0@ == s[s.len() - 1].0@);
            }
        }
    }
}

/// The mutable configuration dictionary.
pub struct ConfigDict {
    entries: Vec<(String, serde_json::Value)>,
}

impl View for ConfigDict {
    type V = Map<Seq<char>, serde_json::Value>;

    closed spec fn view(&self) -> Map<Seq<char>, serde_json::Value> {
        pairs_map(self.entries@)
    }
}

impl ConfigDict {
    /// The entry list carries pairwise-distinct keys.
    pub closed spec fn wf(&self) -> bool {
        pairs_unique(self.entries@)
    }

    /// An empty dictionary.
    pub fn new() -> (r: ConfigDict)
        ensures
            r.wf(),
            r@ == Map::<Seq<char>, serde_json::Value>::empty(),
    {
        ConfigDict { entries: Vec::new() }
    }

    /// The number of keys.
    pub fn len(&self) -> (r: usize)
        requires
            self.wf(),
        ensures
            r == self@.dom().len(),
    {
        proof {
            lemma_pairs_map_len(self.entries@);
        }
        self.entries.len()
    }

    /// Looks a key up: the mapped value when the key is present, nothing
    /// otherwise.
    pub fn get(&self, key: &str) -> (r: Option<&serde_json::Value>)
        requires
            self.wf(),
        ensures
            match r {
                Some(v) => self@.contains_key(key@) && *v == self@[key@],
                None => !self@.contains_key(key@),
            },
    {
        let n = self.entries.len();
        let mut i: usize = 0;
        while i < n
            invariant
                n == self.entries@.len(),
                i <= n,
                self.wf(),
                forall|j: int| 0 <= j < i ==> self.entries@[j].0@ != key@,
            decreases n - i,
        {
            if str_eq(self.entries[i].0.as_str(), key) {
                proof {
                    lemma_pairs_map_characterization(self.entries@);
                }
                return Some(&self.entries[i].1);
            }
            i += 1;
        }
        proof {
            lemma_pairs_map_characterization(self.entries@);
        }
        None
    }

    /// Binds `key` to `value`, overwriting any earlier binding.
    pub fn insert(&mut self, key: String, value: serde_json::Value)
        requires
            old(self).wf(),
        ensures
            final(self).wf(),
            final(self)@ == old(self)@.insert(key@, value),
    {
        let n = self.entries.len();
        let mut i: usize = 0;
        while i < n
            invariant
                self == old(self),
                old(self).wf(),
                n == self.entries@.len(),
                i <= n,
                forall|j: int| 0 <= j < i ==> self.entries@[j].0@ != key@,
            decreases n - i,
        {
            if str_eq(self.entries[i].0.as_str(), key.as_str()) {
                proof {
                    lemma_pairs_map_update(self.entries@, i as int, (key, value));
                }
                self.entries.set(i, (key, value));
                return ;
            }
            i += 1;
        }
        proof {
            lemma_pairs_map_push(self.entries@, (key, value));
        }
        self.entries.push((key, value));
    }

    /// Merges an entry list in, overwriting by key.
    pub(crate) fn merge_pairs(&mut self, pairs: &Vec<(String, serde_json::Value)>)
        requires
            old(self).wf(),
        ensures
            final(self).wf(),
            final(self)@ == old(self)@.union_prefer_right(pairs_map(pairs@)),
    {
        let n = pairs.len();
        let mut i: usize = 0;
        proof {
            assert(pairs@.take(0) =~= Seq::<(String, serde_json::Value)>::empty());
            assert(old(self)@.union_prefer_right(pairs_map(pairs@.take(0))) =~= old(self)@);
        }
        while i < n
            invariant
                n == pairs@.len(),
                i <= n,
                self.wf(),
                self@ == old(self)@.union_prefer_right(pairs_map(pairs@.take(i as int))),
            decreases n - i,
        {
            let entry = &pairs[i];
            let key = entry.0.clone();
            let value = entry.1.clone();
            self.insert(key, value);
            proof {
                let taken = pairs@.take(i as int);
                assert(pairs@.take(i as int + 1).drop_last() =~= taken);
                assert(pairs@.take(i as int + 1).last() == pairs@[i as int]);
                assert(old(self)@.union_prefer_right(pairs_map(taken)).insert(
                    pairs@[i as int].0@,
                    pairs@[i as int].1,
                ) =~= old(self)@.union_prefer_right(pairs_map(pairs@.take(i as int + 1))));
            }
            i += 1;
        }
        proof {
            assert(pairs@.take(n as int) =~= pairs@);
        }
    }

    /// Serializes the dictionary as a pretty-printed JSON object.
    pub fn to_json(&self) -> (r: String)
        ensures
            crate::codec::json_object_of(r@) == Some(self@),
    {
        crate::codec::object_to_json(&self.entries)
    }

    /// Serializes the dictionary as a YAML mapping.
    pub fn to_yaml(&self) -> (r: String)
        ensures
            crate::codec::yaml_object_of(r@) == Some(self@),
    {
        crate::codec::object_to_yaml(&self.entries)
    }

    /// Merges another dictionary in: keys present in both take the other's
    /// value, keys present in only one are kept.
    pub fn merge_from(&mut self, other: &ConfigDict)
        requires
            old(self).wf(),
            other.wf(),
        ensures
            final(self).wf(),
            final(self)@ == old(self)@.union_prefer_right(other@),
    {
        self.merge_pairs(&other.entries);
    }
}

} // verus!
