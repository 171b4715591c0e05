//! A small map keyed by sandbox name (or path), used for the per-sandbox
//! caches of logs, metrics and filesystem listings.
use vstd::prelude::*;

use crate::text::{chars_eq, chars_of};

verus! {

/// No key occurs twice.
pub open spec fn keys_distinct<V>(s: Seq<(String, V)>) -> bool {
    forall|i: int, j: int| 0 <= i < j < s.len() ==> s[i].0@ != s[j].0@
}

/// The map an entry list denotes (a later entry for a key wins).
pub open spec fn map_of<V>(s: Seq<(String, V)>) -> Map<Seq<char>, V>
    decreases s.len(),
{
    if s.len() == 0 {
        Map::empty()
    } else {
        map_of(s.drop_last()).insert(s.last().0@, s.last().1)
    }
}

proof fn lemma_map_of_domain<V>(s: Seq<(String, V)>, k: Seq<char>)
    ensures
        map_of(s).contains_key(k) <==> exists|i: int| 0 <= i < s.len() && s[i].0@ == k,
    decreases s.len(),
{
    if s.len() > 0 {
        lemma_map_of_domain(s.drop_last(), k);
        if map_of(s).contains_key(k) && s.last().0@ != k {
            let i = choose|i: int| 0 <= i < s.drop_last().len() && s.drop_last()[i].0@ == k;
            assert(s[i].0@ == k);
        }
        if exists|i: int| 0 <= i < s.len() && s[i].0@ == k {
            let i = choose|i: int| 0 <= i < s.len() && s[i].0@ == k;
            if i < s.len() - 1 {
                assert(s.drop_last()[i].0@ == k);
            }
        }
    }
}

proof fn lemma_map_of_value<V>(s: Seq<(String, V)>, i: int)
    requires
        keys_distinct(s),
        0 <= i < s.len(),
    ensures
        map_of(s).contains_key(s[i].0@),
        map_of(s)[s[i].0@] == s[i].1,
    decreases s.len(),
{
    if i < s.len() - 1 {
        lemma_map_of_value(s.drop_last(), i);
    }
}

proof fn lemma_map_of_update<V>(s: Seq<(String, V)>, i: int, e: (String, V))
    requires
        keys_distinct(s),
        0 <= i < s.len(),
        e.0@ == s[i].0@,
    ensures
        keys_distinct(s.update(i, e)),
        map_of(s.update(i, e)) == map_of(s).insert(e.0@, e.1),
    decreases s.len(),
{
    let t = s.update(i, e);
    if i == s.len() - 1 {
        assert(t.drop_last() =~= s.drop_last());
        assert(map_of(t) =~= map_of(s).insert(e.0@, e.1));
    } else {
        lemma_map_of_update(s.drop_last(), i, e);
        assert(t.drop_last() =~= s.drop_last().update(i, e));
        assert(s.last().0@ != e.0@);
        assert(map_of(t) =~= map_of(s).insert(e.0@, e.1));
    }
}

proof fn lemma_map_of_remove<V>(s: Seq<(String, V)>, i: int)
    requires
        keys_distinct(s),
        0 <= i < s.len(),
    ensures
        keys_distinct(s.remove(i)),
        map_of(s.remove(i)) == map_of(s).remove(s[i].0@),
    decreases s.len(),
{
    let t = s.remove(i);
    if i == s.len() - 1 {
        assert(t =~= s.drop_last());
        lemma_map_of_domain(s.drop_last(), s[i].0@);
        assert(!map_of(s.drop_last()).contains_key(s[i].0@));
        assert(map_of(t) =~= map_of(s).remove(s[i].0@));
    } else {
        lemma_map_of_remove(s.drop_last(), i);
        assert(t.drop_last() =~= s.drop_last().remove(i));
        assert(t.last() == s.last());
        assert(s.last().0@ != s[i].0@);
        assert(map_of(t) =~= map_of(s).remove(s[i].0@));
    }
}

/// A map from names to values, kept as a list of distinct keys.
///
/// A `HashMap<String, V>` would hold the same map, but Verus proves
/// nothing of its lookups with `String` keys (std's hashing of a `String`
/// is not specified to it), so no read-after-write could be shown of it.
/// The list makes every lookup and update provable against the view
/// [`map_of`]; the caches stay small (one entry per sandbox or path).
#[derive(Debug, Clone)]
pub struct NameMap<V> {
    pub entries: Vec<(String, V)>,
}

impl<V> View for NameMap<V> {
    type V = Map<Seq<char>, V>;

    open spec fn view(&self) -> Map<Seq<char>, V> {
        map_of(self.entries@)
    }
}

impl<V> NameMap<V> {
    pub open spec fn wf(self) -> bool {
        keys_distinct(self.entries@)
    }

    /// The empty map.
    pub fn new() -> (r: Self)
        ensures
            r.wf(),
            r@ == Map::<Seq<char>, V>::empty(),
    {
        NameMap { entries: Vec::new() }
    }

    fn position(&self, key: &str) -> (r: Option<usize>)
        ensures
            match r {
                Some(i) => i < self.entries@.len() && self.entries@[i as int].0@ == key@,
                None => forall|i: int|
                    0 <= i < self.entries@.len() ==> self.entries@[i].0@ != key@,
            },
    {
        let kc = chars_of(key);
        let n = self.entries.len();
        for i in 0..n
            invariant
                n == self.entries@.len(),
                kc@ == key@,
                forall|j: int| 0 <= j < i ==> self.entries@[j].0@ != key@,
        {
            let ec = chars_of(self.entries[i].0.as_str());
            if chars_eq(&ec, &kc) {
                return Some(i);
            }
        }
        None
    }

    /// True when `key` has a value.
    pub fn contains_key(&self, key: &str) -> (r: bool)
        ensures
            r == self@.contains_key(key@),
    {
        proof {
            lemma_map_of_domain(self.entries@, key@);
        }
        self.position(key).is_some()
    }

    /// The value stored for `key`, if any.
    pub fn get(&self, key: &str) -> (r: Option<&V>)
        requires
            self.wf(),
        ensures
            match r {
                Some(v) => self@.contains_key(key@) && *v == self@[key@],
                None => !self@.contains_key(key@),
            },
    {
        proof {
            lemma_map_of_domain(self.entries@, key@);
        }
        match self.position(key) {
            Some(i) => {
                proof {
                    lemma_map_of_value(self.entries@, i as int);
                }
                Some(&self.entries[i].1)
            },
            None => None,
        }
    }

    /// Store `value` for `key`, replacing any earlier value.
    pub fn insert(&mut self, key: String, value: V)
        requires
            old(self).wf(),
        ensures
            final(self).wf(),
            final(self)@ == old(self)@.insert(key@, value),
    {
        match self.position(key.as_str()) {
            Some(i) => {
                proof {
                    lemma_map_of_update(self.entries@, i as int, (key, value));
                }
                self.entries.set(i, (key, value));
            },
            None => {
                proof {
                    lemma_map_of_domain(self.entries@, key@);
                }
                let ghost k = key@;
                self.entries.push((key, value));
                assert(self.entries@.drop_last() == old(self).entries@);
            },
        }
    }

    /// Take the value stored for `key` out of the map.
    pub fn remove(&mut self, key: &str) -> (r: Option<V>)
        requires
            old(self).wf(),
        ensures
            final(self).wf(),
            final(self)@ == old(self)@.remove(key@),
            match r {
                Some(v) => old(self)@.contains_key(key@) && v == old(self)@[key@],
                None => !old(self)@.contains_key(key@),
            },
    {
        proof {
            lemma_map_of_domain(self.entries@, key@);
        }
        match self.position(key) {
            Some(i) => {
                proof {
                    lemma_map_of_value(self.entries@, i as int);
                    lemma_map_of_remove(self.entries@, i as int);
                }
                let (_, v) = self.entries.remove(i);
                Some(v)
            },
            None => {
                assert(self@ =~= old(self)@.remove(key@));
                None
            },
        }
    }
}

/// What a read gives back after a write: the written key maps to the
/// written value, and every other key keeps its value.
pub proof fn law_name_map_read_after_write<V>(m: Map<Seq<char>, V>, k: Seq<char>, v: V, other: Seq<char>)
    requires
        other != k,
    ensures
        m.insert(k, v).contains_key(k),
        m.insert(k, v)[k] == v,
        m.insert(k, v).contains_key(other) == m.contains_key(other),
        m.contains_key(other) ==> m.insert(k, v)[other] == m[other],
{
}

} // verus!
