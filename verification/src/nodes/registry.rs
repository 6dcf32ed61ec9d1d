//! A registry of values keyed by string ids: the hub keeps its connected
//! nodes and its commands awaiting an answer in one each.

use vstd::prelude::*;

use crate::text::str_eq;

verus! {

/// Values keyed by string ids; registering an id again replaces its value.
pub struct Registry<T> {
    entries: Vec<(String, T)>,
}

/// No id occurs twice among the entries.
pub open spec fn unique_keys<T>(s: Seq<(String, T)>) -> bool {
    forall|i: int, j: int|
        0 <= i < s.len() && 0 <= j < s.len() && i != j ==> #[trigger] s[i].0@ != #[trigger] s[j].0@
}

pub open spec fn has_key<T>(s: Seq<(String, T)>, k: Seq<char>) -> bool {
    exists|i: int| 0 <= i < s.len() && #[trigger] s[i].0@ == k
}

pub open spec fn key_index<T>(s: Seq<(String, T)>, k: Seq<char>) -> int {
    choose|i: int| 0 <= i < s.len() && #[trigger] s[i].0@ == k
}

/// The map that the entries hold.
pub open spec fn entries_map<T>(s: Seq<(String, T)>) -> Map<Seq<char>, T> {
    Map::new(|k: Seq<char>| has_key(s, k), |k: Seq<char>| s[key_index(s, k)].1)
}

proof fn lemma_index_is_key_index<T>(s: Seq<(String, T)>, i: int)
    requires
        unique_keys(s),
        0 <= i < s.len(),
    ensures
        has_key(s, s[i].0@),
        key_index(s, s[i].0@) == i,
{
    assert(has_key(s, s[i].0@));
    let j = key_index(s, s[i].0@);
    assert(s[j].0@ == s[i].0@);
}

impl<T> Registry<T> {
    #[verifier::type_invariant]
    spec fn keys_unique(self) -> bool {
        unique_keys(self.entries@)
    }

    /// The registered values by id.
    pub closed spec fn view(&self) -> Map<Seq<char>, T> {
        entries_map(self.entries@)
    }

    pub fn new() -> (r: Registry<T>)
        ensures
            r.view() == Map::<Seq<char>, T>::empty(),
    {
        let r = Registry { entries: Vec::new() };
        assert(entries_map(r.entries@) =~= Map::<Seq<char>, T>::empty());
        r
    }

    fn find(&self, key: &str) -> (r: Option<usize>)
        ensures
            match r {
                Some(i) => i < self.entries@.len() && self.entries@[i as int].0@ == key@,
                None => !has_key(self.entries@, key@),
            },
    {
        let n = self.entries.len();
        let mut i: usize = 0;
        while i < n
            invariant
                n == self.entries@.len(),
                i <= n,
                forall|j: int| 0 <= j < i ==> self.entries@[j].0@ != key@,
            decreases n - i,
        {
            if str_eq(self.entries[i].0.as_str(), key) {
                return Some(i);
            }
            i = i + 1;
        }
        None
    }

    /// Whether `key` is registered.
    pub fn contains(&self, key: &str) -> (r: bool)
        ensures
            r == self.view().contains_key(key@),
    {
        self.find(key).is_some()
    }

    /// The value registered for `key`.
    pub fn get(&self, key: &str) -> (r: Option<&T>)
        ensures
            match r {
                Some(v) => self.view().contains_key(key@) && *v == self.view()[key@],
                None => !self.view().contains_key(key@),
            },
    {
        proof {
            use_type_invariant(self);
        }
        match self.find(key) {
            Some(i) => {
                proof {
                    lemma_index_is_key_index(self.entries@, i as int);
                }
                Some(&self.entries[i].1)
            },
            None => None,
        }
    }

    /// Registers `value` for `key`, replacing any earlier value.
    pub fn insert(&mut self, key: String, value: T)
        ensures
            final(self).view() == old(self).view().insert(key@, value),
    {
        proof {
            use_type_invariant(&*self);
        }
        let ghost old_entries = self.entries@;
        match self.find(key.as_str()) {
            Some(i) => {
                let ghost k = key@;
                let mut entries: Vec<(String, T)> = Vec::new();
                std::mem::swap(&mut entries, &mut self.entries);
                entries.set(i, (key, value));
                proof {
                    assert(entries@ == old_entries.update(i as int, (entries@[i as int].0, value)));
                    assert(unique_keys(entries@));
                    assert forall|kk: Seq<char>| #[trigger] has_key(entries@, kk) == has_key(old_entries, kk) by {
                        if has_key(old_entries, kk) {
                            let j = key_index(old_entries, kk);
                            if j == i {
                                assert(entries@[i as int].0@ == kk);
                            } else {
                                assert(entries@[j].0@ == kk);
                            }
                        }
                        if has_key(entries@, kk) {
                            let j = key_index(entries@, kk);
                            if j == i {
                                assert(old_entries[i as int].0@ == kk);
                            } else {
                                assert(old_entries[j].0@ == kk);
                            }
                        }
                    }
                    assert forall|kk: Seq<char>| has_key(entries@, kk) implies entries@[key_index(entries@, kk)].1 == #[trigger] entries_map(old_entries).insert(k, value)[kk] by {
                        let j = key_index(entries@, kk);
                        lemma_index_is_key_index(entries@, j);
                        if kk != k {
                            lemma_index_is_key_index(old_entries, j);
                        }
                    }
                    assert(entries_map(entries@) =~= entries_map(old_entries).insert(k, value));
                }
                self.entries = entries;
            },
            None => {
                let ghost k = key@;
                let mut entries: Vec<(String, T)> = Vec::new();
                std::mem::swap(&mut entries, &mut self.entries);
                entries.push((key, value));
                proof {
                    let n = old_entries.len() as int;
                    assert(entries@ == old_entries.push(entries@[n]));
                    assert(unique_keys(entries@));
                    assert forall|kk: Seq<char>| #[trigger] has_key(entries@, kk) == (has_key(old_entries, kk) || kk == k) by {
                        if has_key(old_entries, kk) {
                            let j = key_index(old_entries, kk);
                            assert(entries@[j].0@ == kk);
                        }
                        if kk == k {
                            assert(entries@[n].0@ == kk);
                        }
                        if has_key(entries@, kk) && kk != k {
                            let j = key_index(entries@, kk);
                            assert(old_entries[j].0@ == kk);
                        }
                    }
                    assert forall|kk: Seq<char>| has_key(entries@, kk) implies entries@[key_index(entries@, kk)].1 == #[trigger] entries_map(old_entries).insert(k, value)[kk] by {
                        let j = key_index(entries@, kk);
                        lemma_index_is_key_index(entries@, j);
                        if kk != k {
                            lemma_index_is_key_index(old_entries, j);
                        }
                    }
                    assert(entries_map(entries@) =~= entries_map(old_entries).insert(k, value));
                }
                self.entries = entries;
            },
        }
    }

    /// Unregisters `key`, handing back its value.
    pub fn remove(&mut self, key: &str) -> (r: Option<T>)
        ensures
            final(self).view() == old(self).view().remove(key@),
            match r {
                Some(v) => old(self).view().contains_key(key@) && v == old(self).view()[key@],
                None => !old(self).view().contains_key(key@),
            },
    {
        proof {
            use_type_invariant(&*self);
        }
        let ghost old_entries = self.entries@;
        match self.find(key) {
            Some(i) => {
                let mut entries: Vec<(String, T)> = Vec::new();
                std::mem::swap(&mut entries, &mut self.entries);
                let (_, v) = entries.remove(i);
                proof {
                    lemma_index_is_key_index(old_entries, i as int);
                    assert(entries@ == old_entries.remove(i as int));
                    assert(unique_keys(entries@)) by {
                        assert forall|a: int, b: int|
                            0 <= a < entries@.len() && 0 <= b < entries@.len() && a != b implies #[trigger] entries@[a].0@
                                != #[trigger] entries@[b].0@ by {
                            let a2 = if a < i { a } else { a + 1 };
                            let b2 = if b < i { b } else { b + 1 };
                            assert(entries@[a] == old_entries[a2]);
                            assert(entries@[b] == old_entries[b2]);
                        }
                    }
                    assert forall|kk: Seq<char>| #[trigger] has_key(entries@, kk) == (has_key(old_entries, kk) && kk != key@) by {
                        if has_key(old_entries, kk) && kk != key@ {
                            let j = key_index(old_entries, kk);
                            assert(j != i);
                            let j2 = if j < i { j } else { j - 1 };
                            assert(entries@[j2] == old_entries[j]);
                        }
                        if has_key(entries@, kk) {
                            let j = key_index(entries@, kk);
                            let j2 = if j < i { j } else { j + 1 };
                            assert(entries@[j] == old_entries[j2]);
                            assert(j2 != i);
                        }
                    }
                    assert forall|kk: Seq<char>| has_key(entries@, kk) implies entries@[key_index(entries@, kk)].1 == #[trigger] entries_map(old_entries).remove(key@)[kk] by {
                        let j = key_index(entries@, kk);
                        lemma_index_is_key_index(entries@, j);
                        let j2 = if j < i { j } else { j + 1 };
                        assert(entries@[j] == old_entries[j2]);
                        lemma_index_is_key_index(old_entries, j2);
                    }
                    assert(entries_map(entries@) =~= entries_map(old_entries).remove(key@));
                }
                self.entries = entries;
                Some(v)
            },
            None => {
                proof {
                    assert(entries_map(old_entries) =~= entries_map(old_entries).remove(key@));
                }
                None
            },
        }
    }
}

} // verus!

verus! {

/// A value registered under an id is what a later lookup of that id finds,
/// and registering it leaves every other id as it was.
pub proof fn lemma_lookup_after_register<T>(before: Registry<T>, after: Registry<T>, key: Seq<char>, value: T)
    requires
        after.view() == before.view().insert(key, value),
    ensures
        after.view().contains_key(key),
        after.view()[key] == value,
        forall|other: Seq<char>|
            other != key ==> (#[trigger] after.view().contains_key(other) == before.view().contains_key(other)
                && (before.view().contains_key(other) ==> after.view()[other] == before.view()[other])),
{
}

/// After an id is unregistered no lookup finds it, and every other id is
/// left as it was.
pub proof fn lemma_lookup_after_unregister<T>(before: Registry<T>, after: Registry<T>, key: Seq<char>)
    requires
        after.view() == before.view().remove(key),
    ensures
        !after.view().contains_key(key),
        forall|other: Seq<char>|
            other != key ==> (#[trigger] after.view().contains_key(other) == before.view().contains_key(other)
                && (before.view().contains_key(other) ==> after.view()[other] == before.view()[other])),
{
}

} // verus!
