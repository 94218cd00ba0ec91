//! A map from session seeds to values.
//!
//! Seeds are short texts and a shell holds a few dozen of them at most, so the
//! map is a list of pairs in which no seed occurs twice.

use vstd::prelude::*;

use crate::model;
use crate::text;

verus! {

/// A map keyed by text. Its model is a `Map<Seq<char>, V>`.
pub struct SeedMap<V> {
    entries: Vec<(String, V)>,
}

/// Whether `entries[i]` is the entry of `key`.
spec fn is_entry<V>(entries: Seq<(String, V)>, i: int, key: Seq<char>) -> bool {
    0 <= i < entries.len() && entries[i].0@ == key
}

/// Where the entry of `key` stands.
spec fn entry_of<V>(entries: Seq<(String, V)>, key: Seq<char>) -> int {
    choose|i: int| is_entry(entries, i, key)
}

/// No key occurs twice.
spec fn distinct<V>(entries: Seq<(String, V)>) -> bool {
    forall|i: int, j: int, key: Seq<char>|
        #![trigger is_entry(entries, i, key), is_entry(entries, j, key)]
        is_entry(entries, i, key) && is_entry(entries, j, key) ==> i == j
}

/// The map that a list of pairs stands for.
spec fn as_map<V>(entries: Seq<(String, V)>) -> Map<Seq<char>, V> {
    Map::new(
        |key: Seq<char>| exists|i: int| is_entry(entries, i, key),
        |key: Seq<char>| entries[entry_of(entries, key)].1,
    )
}

/// An entry of a list without repeated keys is what the map holds under its key.
proof fn entry_in_map<V>(entries: Seq<(String, V)>, i: int)
    requires
        distinct(entries),
        0 <= i < entries.len(),
    ensures
        as_map(entries).contains_pair(entries[i].0@, entries[i].1),
{
    assert(is_entry(entries, i, entries[i].0@));
    let j = entry_of(entries, entries[i].0@);
    assert(is_entry(entries, j, entries[i].0@));
}

impl<V> View for SeedMap<V> {
    type V = Map<Seq<char>, V>;

    closed spec fn view(&self) -> Map<Seq<char>, V> {
        as_map(self.entries@)
    }
}

impl<V> SeedMap<V> {
    #[verifier::type_invariant]
    spec fn inv(&self) -> bool {
        distinct(self.entries@)
    }

    /// The map without entries.
    pub fn new() -> (r: Self)
        ensures
            r@ == Map::<Seq<char>, V>::empty(),
    {
        let r = SeedMap { entries: Vec::new() };
        assert(r@ =~= Map::<Seq<char>, V>::empty()) by {
            assert forall|key: Seq<char>| !r@.dom().contains(key) by {
                assert forall|i: int| !is_entry(r.entries@, i, key) by {}
            }
        }
        r
    }

    /// The position of the entry of `key`.
    fn position(&self, key: &str) -> (r: Option<usize>)
        ensures
            match r {
                Some(i) => is_entry(self.entries@, i as int, key@),
                None => forall|i: int| !is_entry(self.entries@, i, key@),
            },
    {
        let mut i: usize = 0;
        while i < self.entries.len()
            invariant
                i <= self.entries@.len(),
                forall|k: int| 0 <= k < i ==> !is_entry(self.entries@, k, key@),
            decreases self.entries@.len() - i,
        {
            if text::same(self.entries[i].0.as_str(), key) {
                return Some(i);
            }
            i = i + 1;
        }
        None
    }

    /// The value under `key`.
    pub fn get(&self, key: &str) -> (r: Option<&V>)
        ensures
            match r {
                Some(v) => self@.contains_key(key@) && *v == self@[key@],
                None => !self@.contains_key(key@),
            },
    {
        proof {
            use_type_invariant(self);
        }
        match self.position(key) {
            Some(i) => {
                proof {
                    entry_in_map(self.entries@, i as int);
                }
                Some(&self.entries[i].1)
            },
            None => None,
        }
    }

    /// Whether there is a value under `key`.
    pub fn contains_key(&self, key: &str) -> (r: bool)
        ensures
            r == self@.contains_key(key@),
    {
        self.get(key).is_some()
    }

    /// Takes the value under `key` out of the map.
    pub fn remove(&mut self, key: &str) -> (r: Option<V>)
        ensures
            final(self)@ == old(self)@.remove(key@),
            match r {
                Some(v) => old(self)@.contains_key(key@) && v == old(self)@[key@],
                None => !old(self)@.contains_key(key@),
            },
    {
        proof {
            use_type_invariant(&*self);
        }
        let ghost before = self.entries@;
        match self.position(key) {
            Some(i) => {
                let mut entries: Vec<(String, V)> = Vec::new();
                std::mem::swap(&mut entries, &mut self.entries);
                let (_, value) = entries.remove(i);
                proof {
                    entry_in_map(before, i as int);
                    let after = entries@;
                    assert forall|k: int, key2: Seq<char>| #[trigger]
                        is_entry(after, k, key2) implies is_entry(
                        before,
                        if k < i {
                            k
                        } else {
                            k + 1
                        },
                        key2,
                    ) by {}
                    assert forall|k: int, key2: Seq<char>|
                        k != i && #[trigger] is_entry(before, k, key2) implies is_entry(
                        after,
                        if k < i {
                            k
                        } else {
                            k - 1
                        },
                        key2,
                    ) by {}
                    assert(distinct(after));
                    assert(as_map(after) =~= as_map(before).remove(key@)) by {
                        assert forall|key2: Seq<char>|
                            as_map(after).dom().contains(key2) == as_map(before).remove(
                                key@,
                            ).dom().contains(key2) by {
                            if exists|k: int| is_entry(after, k, key2) {
                                let k = choose|k: int| is_entry(after, k, key2);
                                let k2 = if k < i {
                                    k
                                } else {
                                    k + 1
                                };
                                assert(is_entry(before, k2, key2));
                                assert(key2 != key@);
                            }
                            if key2 != key@ && exists|k: int| is_entry(before, k, key2) {
                                let k = choose|k: int| is_entry(before, k, key2);
                                assert(k != i);
                                assert(is_entry(
                                    after,
                                    if k < i {
                                        k
                                    } else {
                                        k - 1
                                    },
                                    key2,
                                ));
                            }
                        }
                        assert forall|key2: Seq<char>| as_map(after).dom().contains(key2) implies as_map(
                            after,
                        )[key2] == as_map(before)[key2] by {
                            let k = choose|k: int| is_entry(after, k, key2);
                            entry_in_map(after, k);
                            entry_in_map(
                                before,
                                if k < i {
                                    k
                                } else {
                                    k + 1
                                },
                            );
                        }
                    }
                }
                self.entries = entries;
                Some(value)
            },
            None => {
                proof {
                    assert(as_map(before) =~= as_map(before).remove(key@));
                }
                None
            },
        }
    }

    /// Puts `value` under `key`, in place of what was there.
    pub fn insert(&mut self, key: String, value: V)
        ensures
            final(self)@ == old(self)@.insert(key@, value),
    {
        let ghost before_map = self@;
        self.remove(key.as_str());
        proof {
            use_type_invariant(&*self);
        }
        let ghost before = self.entries@;
        let ghost k = key@;
        let mut entries: Vec<(String, V)> = Vec::new();
        std::mem::swap(&mut entries, &mut self.entries);
        entries.push((key, value));
        proof {
            let after = entries@;
            assert(!as_map(before).dom().contains(k));
            assert forall|i: int, key2: Seq<char>|
                i < before.len() && #[trigger] is_entry(after, i, key2) implies is_entry(
                before,
                i,
                key2,
            ) by {}
            assert forall|i: int, key2: Seq<char>| #[trigger]
                is_entry(before, i, key2) implies is_entry(after, i, key2) by {}
            assert(is_entry(after, before.len() as int, k));
            assert(distinct(after));
            assert(as_map(after) =~= before_map.insert(k, value)) by {
                assert forall|key2: Seq<char>|
                    as_map(after).dom().contains(key2) == before_map.insert(
                        k,
                        value,
                    ).dom().contains(key2) by {
                    if exists|i: int| is_entry(after, i, key2) {
                        let i = choose|i: int| is_entry(after, i, key2);
                        if i < before.len() {
                            assert(is_entry(before, i, key2));
                        }
                    }
                    if exists|i: int| is_entry(before, i, key2) {
                        let i = choose|i: int| is_entry(before, i, key2);
                        assert(is_entry(after, i, key2));
                    }
                    assert(as_map(before) == before_map.remove(k));
                    assert(key2 != k ==> (as_map(before).dom().contains(key2)
                        <==> before_map.dom().contains(key2)));
                }
                assert forall|key2: Seq<char>| as_map(after).dom().contains(key2) implies as_map(
                    after,
                )[key2] == before_map.insert(k, value)[key2] by {
                    let i = choose|i: int| is_entry(after, i, key2);
                    entry_in_map(after, i);
                    if i < before.len() {
                        entry_in_map(before, i);
                        assert(as_map(before).dom().contains(key2));
                        assert(as_map(before)[key2] == before_map[key2]);
                    }
                }
            }
        }
        self.entries = entries;
    }

    /// The keys, each once, in no particular order.
    pub fn keys(&self) -> (r: Vec<String>)
        ensures
            model::views(r@).no_duplicates(),
            forall|key: Seq<char>| #[trigger]
                model::views(r@).contains(key) <==> self@.contains_key(key),
    {
        proof {
            use_type_invariant(self);
        }
        let mut out: Vec<String> = Vec::new();
        let mut i: usize = 0;
        while i < self.entries.len()
            invariant
                i <= self.entries@.len(),
                out@.len() == i,
                forall|k: int| 0 <= k < i ==> (#[trigger] out@[k])@ == self.entries@[k].0@,
            decreases self.entries@.len() - i,
        {
            out.push(self.entries[i].0.clone());
            i = i + 1;
        }
        proof {
            let keys = model::views(out@);
            assert forall|a: int, b: int|
                0 <= a < keys.len() && 0 <= b < keys.len() && a != b implies keys[a] != keys[b] by {
                if keys[a] == keys[b] {
                    assert(is_entry(self.entries@, a, keys[a]));
                    assert(is_entry(self.entries@, b, keys[a]));
                }
            }
            assert forall|key: Seq<char>| #[trigger]
                keys.contains(key) <==> self@.contains_key(key) by {
                if keys.contains(key) {
                    let k = choose|k: int| 0 <= k < keys.len() && keys[k] == key;
                    assert(is_entry(self.entries@, k, key));
                }
                if self@.contains_key(key) {
                    let k = choose|k: int| is_entry(self.entries@, k, key);
                    assert(keys[k] == key);
                }
            }
        }
        out
    }

    /// Drops every entry whose key is not in `kept`.
    pub fn retain_keys(&mut self, kept: &Vec<String>)
        ensures
            final(self)@ == old(self)@.restrict(
                Set::new(|key: Seq<char>| model::views(kept@).contains(key)),
            ),
    {
        proof {
            use_type_invariant(&*self);
        }
        let ghost before = self.entries@;
        let ghost keep = Set::new(|key: Seq<char>| model::views(kept@).contains(key));
        let mut entries: Vec<(String, V)> = Vec::new();
        std::mem::swap(&mut entries, &mut self.entries);
        let mut out: SeedMap<V> = SeedMap::new();
        while entries.len() > 0
            invariant
                entries@.len() <= before.len(),
                entries@ == before.take(entries@.len() as int),
                distinct(before),
                keep == Set::new(|key: Seq<char>| model::views(kept@).contains(key)),
                forall|key: Seq<char>| #[trigger]
                    out@.dom().contains(key) <==> keep.contains(key) && exists|i: int|
                        entries@.len() <= i && is_entry(before, i, key),
                forall|key: Seq<char>| #[trigger]
                    out@.dom().contains(key) ==> out@[key] == as_map(before)[key],
            decreases entries@.len(),
        {
            let ghost at = entries@.len() - 1;
            let (key, value) = entries.pop().unwrap();
            proof {
                assert(entries@ =~= before.take(at));
                assert(is_entry(before, at, key@));
                entry_in_map(before, at);
            }
            let ghost out_before = out@;
            if listed(kept, key.as_str()) {
                let ghost k = key@;
                out.insert(key, value);
                assert(keep.contains(k));
            } else {
                assert(!keep.contains(key@));
            }
            proof {
                assert forall|key2: Seq<char>| #[trigger]
                    out@.dom().contains(key2) <==> keep.contains(key2) && exists|i: int|
                        at <= i && is_entry(before, i, key2) by {
                    if exists|i: int| at <= i && is_entry(before, i, key2) {
                        let i = choose|i: int| at <= i && is_entry(before, i, key2);
                        if i == at {
                            assert(key2 == before[at].0@);
                        } else {
                            assert(at + 1 <= i && is_entry(before, i, key2));
                        }
                    }
                    if out_before.dom().contains(key2) {
                        let i = choose|i: int| at + 1 <= i && is_entry(before, i, key2);
                        assert(at <= i && is_entry(before, i, key2));
                    }
                }
            }
        }
        proof {
            assert(out@ =~= as_map(before).restrict(keep)) by {
                assert forall|key: Seq<char>|
                    out@.dom().contains(key) == as_map(before).restrict(keep).dom().contains(key) by {
                    if keep.contains(key) && as_map(before).dom().contains(key) {
                        let i = choose|i: int| is_entry(before, i, key);
                        assert(0 <= i && is_entry(before, i, key));
                    }
                }
            }
            use_type_invariant(&out);
        }
        self.entries = out.entries;
    }
}

/// Whether `key` is one of `list`.
pub fn listed(list: &Vec<String>, key: &str) -> (r: bool)
    ensures
        r == model::views(list@).contains(key@),
{
    let mut i: usize = 0;
    while i < list.len()
        invariant
            i <= list@.len(),
            forall|k: int| 0 <= k < i ==> model::views(list@)[k] != key@,
        decreases list@.len() - i,
    {
        if text::same(list[i].as_str(), key) {
            assert(model::views(list@)[i as int] == key@);
            return true;
        }
        i = i + 1;
    }
    false
}

} // verus!
