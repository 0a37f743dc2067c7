//! A map from strings to strings, kept as a list of entries with distinct keys.
use vstd::prelude::*;
use crate::text::str_eq;

verus! {

/// Some entry of `s` has key `k`.
pub open spec fn has_key(s: Seq<(String, String)>, k: Seq<char>) -> bool {
    exists|i: int| 0 <= i < s.len() && (#[trigger] s[i]).0@ == k
}

/// The position of the entry with key `k`.
pub open spec fn key_index(s: Seq<(String, String)>, k: Seq<char>) -> int {
    choose|i: int| 0 <= i < s.len() && (#[trigger] s[i]).0@ == k
}

/// No two entries share a key.
pub open spec fn distinct_keys(s: Seq<(String, String)>) -> bool {
    forall|i: int, j: int| 0 <= i < s.len() && 0 <= j < s.len() && i != j ==> (#[trigger] s[i]).0@ != (
    #[trigger] s[j]).0@
}

/// The map that a list of entries with distinct keys stands for.
pub open spec fn entries_map(s: Seq<(String, String)>) -> Map<Seq<char>, Seq<char>> {
    Map::new(|k: Seq<char>| has_key(s, k), |k: Seq<char>| s[key_index(s, k)].1@)
}

/// A map from strings to strings.
#[derive(Debug)]
pub struct StringMap {
    entries: Vec<(String, String)>,
}

impl View for StringMap {
    type V = Map<Seq<char>, Seq<char>>;

    closed spec fn view(&self) -> Map<Seq<char>, Seq<char>> {
        entries_map(self.entries@)
    }
}

proof fn lemma_lookup_at(s: Seq<(String, String)>, i: int)
    requires
        distinct_keys(s),
        0 <= i < s.len(),
    ensures
        entries_map(s).contains_key(s[i].0@),
        entries_map(s)[s[i].0@] == s[i].1@,
{
    assert(has_key(s, s[i].0@));
    let j = key_index(s, s[i].0@);
    assert(s[j].0@ == s[i].0@);
}

/// A list of entries with distinct keys stands for a finite map with one key per entry.
proof fn lemma_entries_map_len(s: Seq<(String, String)>)
    requires
        distinct_keys(s),
    ensures
        entries_map(s).dom().finite(),
        entries_map(s).dom().len() == s.len(),
    decreases s.len(),
{
    if s.len() == 0 {
        assert(entries_map(s).dom() =~= Set::<Seq<char>>::empty());
    } else {
        let t = s.drop_last();
        let n = t.len() as int;
        assert(distinct_keys(t)) by {
            assert forall|i: int, j: int| 0 <= i < t.len() && 0 <= j < t.len() && i != j implies (
            #[trigger] t[i]).0@ != (#[trigger] t[j]).0@ by {
                assert(t[i] == s[i]);
                assert(t[j] == s[j]);
            }
        }
        lemma_entries_map_len(t);
        let k = s[n].0@;
        assert(!entries_map(t).dom().contains(k)) by {
            if has_key(t, k) {
                let i = choose|i: int| 0 <= i < t.len() && (#[trigger] t[i]).0@ == k;
                assert(s[i] == t[i]);
            }
        }
        assert(entries_map(s).dom() =~= entries_map(t).dom().insert(k)) by {
            assert forall|x: Seq<char>| #![auto] has_key(s, x) <==> (has_key(t, x) || x == k) by {
                if has_key(s, x) {
                    let i = choose|i: int| 0 <= i < s.len() && (#[trigger] s[i]).0@ == x;
                    if i < n {
                        assert(t[i] == s[i]);
                    }
                }
                if has_key(t, x) {
                    let i = choose|i: int| 0 <= i < t.len() && (#[trigger] t[i]).0@ == x;
                    assert(s[i] == t[i]);
                }
                if x == k {
                    assert(s[n].0@ == x);
                }
            }
        }
    }
}

impl StringMap {
    #[verifier::type_invariant]
    spec fn keys_are_distinct(self) -> bool {
        distinct_keys(self.entries@)
    }

    /// The entries, in the order in which their keys were first inserted.
    pub closed spec fn entry_seq(&self) -> Seq<(String, String)> {
        self.entries@
    }

    /// An empty map.
    pub fn new() -> (r: Self)
        ensures
            r@ == Map::<Seq<char>, Seq<char>>::empty(),
            r.entry_seq().len() == 0,
    {
        let r = StringMap { entries: Vec::new() };
        assert(r@ =~= Map::<Seq<char>, Seq<char>>::empty());
        r
    }

    /// The entries, each key once.
    pub fn entries(&self) -> (r: &Vec<(String, String)>)
        ensures
            r@ == self.entry_seq(),
            distinct_keys(r@),
            entries_map(r@) == self@,
    {
        proof { use_type_invariant(self); }
        &self.entries
    }

    /// The number of keys.
    pub fn len(&self) -> (r: usize)
        ensures
            r == self.entry_seq().len(),
            self@.dom().finite(),
            r == self@.len(),
    {
        proof {
            use_type_invariant(self);
            lemma_entries_map_len(self.entries@);
        }
        self.entries.len()
    }

    /// The position of `key` among the entries, if it is there.
    fn find(&self, key: &str) -> (r: Option<usize>)
        ensures
            match r {
                Some(i) => i < self.entries@.len() && self.entries@[i as int].0@ == key@,
                None => !has_key(self.entries@, key@),
            },
    {
        let n = self.entries.len();
        let mut i: usize = 0;
        while i < n
            invariant
                n == self.entries@.len(),
                i <= n,
                forall|j: int| 0 <= j < i ==> (#[trigger] self.entries@[j]).0@ != key@,
            decreases n - i,
        {
            if str_eq(self.entries[i].0.as_str(), key) {
                return Some(i);
            }
            i = i + 1;
        }
        None
    }

    /// The value stored under `key`.
    pub fn get(&self, key: &str) -> (r: Option<&String>)
        ensures
            match r {
                Some(v) => self@.contains_key(key@) && v@ == self@[key@],
                None => !self@.contains_key(key@),
            },
    {
        proof { use_type_invariant(self); }
        match self.find(key) {
            Some(i) => {
                proof { lemma_lookup_at(self.entries@, i as int); }
                Some(&self.entries[i].1)
            },
            None => None,
        }
    }

    /// Stores `value` under `key`, replacing what was stored there; the map gains a key
    /// when `key` was not there.
    pub fn insert(&mut self, key: String, value: String)
        ensures
            final(self)@ == old(self)@.insert(key@, value@),
            final(self)@.dom().finite(),
            final(self)@.len() == old(self)@.len() + (if old(self)@.contains_key(key@) { 0int } else { 1int }),
    {
        proof { use_type_invariant(&*self); }
        let ghost old_entries = self.entries@;
        let found = self.find(key.as_str());
        let mut entries: Vec<(String, String)> = Vec::new();
        std::mem::swap(&mut entries, &mut self.entries);
        match found {
            Some(i) => {
                entries.set(i, (key, value));
                proof {
                    let s = entries@;
                    assert(s == old_entries.update(i as int, s[i as int]));
                    assert(distinct_keys(s)) by {
                        assert forall|a: int, b: int|
                            0 <= a < s.len() && 0 <= b < s.len() && a != b implies (#[trigger] s[a]).0@
                            != (#[trigger] s[b]).0@ by {
                            if a == i {
                                assert(old_entries[b].0@ != old_entries[i as int].0@);
                            } else if b == i {
                                assert(old_entries[a].0@ != old_entries[i as int].0@);
                            } else {
                                assert(old_entries[a].0@ != old_entries[b].0@);
                            }
                        }
                    }
                    assert forall|k: Seq<char>| #![auto] has_key(s, k) <==> has_key(old_entries, k) by {
                        if has_key(s, k) {
                            let j = choose|j: int| 0 <= j < s.len() && (#[trigger] s[j]).0@ == k;
                            assert(old_entries[j].0@ == s[j].0@);
                        }
                        if has_key(old_entries, k) {
                            let j = choose|j: int| 0 <= j < old_entries.len() && (#[trigger] old_entries[j]).0@ == k;
                            assert(old_entries[j].0@ == s[j].0@);
                        }
                    }
                    assert forall|k: Seq<char>| has_key(s, k) implies #[trigger] entries_map(s)[k]
                        == (if k == s[i as int].0@ { s[i as int].1@ } else { entries_map(old_entries)[k] }) by {
                        let j = key_index(s, k);
                        if k != s[i as int].0@ {
                            assert(j != i);
                            lemma_lookup_at(old_entries, j);
                        }
                    }
                    assert(entries_map(s) =~= entries_map(old_entries).insert(key@, value@));
                }
            },
            None => {
                entries.push((key, value));
                proof {
                    let s = entries@;
                    let n = old_entries.len();
                    assert(s == old_entries.push(s[n as int]));
                    assert(distinct_keys(s)) by {
                        assert forall|a: int, b: int|
                            0 <= a < s.len() && 0 <= b < s.len() && a != b implies (#[trigger] s[a]).0@
                            != (#[trigger] s[b]).0@ by {
                            if a == n {
                                assert(old_entries[b] == s[b]);
                            } else if b == n {
                                assert(old_entries[a] == s[a]);
                            } else {
                                assert(old_entries[a] == s[a]);
                                assert(old_entries[b] == s[b]);
                            }
                        }
                    }
                    assert forall|k: Seq<char>| #![auto] has_key(s, k) <==> (has_key(old_entries, k) || k
                        == key@) by {
                        if has_key(s, k) {
                            let j = choose|j: int| 0 <= j < s.len() && (#[trigger] s[j]).0@ == k;
                            if j < n {
                                assert(old_entries[j] == s[j]);
                            }
                        }
                        if has_key(old_entries, k) {
                            let j = choose|j: int| 0 <= j < old_entries.len() && (#[trigger] old_entries[j]).0@ == k;
                            assert(old_entries[j] == s[j]);
                        }
                        if k == key@ {
                            assert(s[n as int].0@ == k);
                        }
                    }
                    assert forall|k: Seq<char>| has_key(s, k) implies #[trigger] entries_map(s)[k]
                        == (if k == key@ { value@ } else { entries_map(old_entries)[k] }) by {
                        let j = key_index(s, k);
                        if k != key@ {
                            assert(j != n);
                            assert(old_entries[j] == s[j]);
                            lemma_lookup_at(old_entries, j);
                        } else {
                            lemma_lookup_at(s, n as int);
                        }
                    }
                    assert(entries_map(s) =~= entries_map(old_entries).insert(key@, value@));
                }
            },
        }
        proof {
            lemma_entries_map_len(old_entries);
            lemma_entries_map_len(entries@);
        }
        self.entries = entries;
    }
}

impl Clone for StringMap {
    fn clone(&self) -> (r: Self)
        ensures
            r@ == self@,
            r.entry_seq() == self.entry_seq(),
    {
        proof { use_type_invariant(self); }
        let n = self.entries.len();
        let mut entries: Vec<(String, String)> = Vec::new();
        let mut i: usize = 0;
        while i < n
            invariant
                n == self.entries@.len(),
                i <= n,
                entries@ == self.entries@.subrange(0, i as int),
            decreases n - i,
        {
            let k = self.entries[i].0.clone();
            let v = self.entries[i].1.clone();
            entries.push((k, v));
            assert(entries@ =~= self.entries@.subrange(0, i + 1));
            i = i + 1;
        }
        assert(entries@ =~= self.entries@);
        StringMap { entries }
    }
}

} // verus!
