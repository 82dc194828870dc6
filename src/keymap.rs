use vstd::prelude::*;

use crate::key::Key;

verus! {

/// The keys of `s` are pairwise distinct.
pub open spec fn keys_unique<A>(s: Seq<(Key, A)>) -> bool {
    forall|i: int, j: int| 0 <= i < j < s.len() ==> s[i].0 != s[j].0
}

/// The map that a sequence of bindings denotes: a later binding of a key
/// overrides an earlier one.
pub open spec fn map_of<A>(s: Seq<(Key, A)>) -> Map<Key, A>
    decreases s.len(),
{
    if s.len() == 0 {
        Map::empty()
    } else {
        map_of(s.drop_last()).insert(s.last().0, s.last().1)
    }
}

/// What a map binds a key to, if anything.
pub open spec fn bound_to<A>(m: Map<Key, A>, k: Key) -> Option<A> {
    if m.contains_key(k) {
        Some(m[k])
    } else {
        None
    }
}

/// Every key bound in `map_of(s)` comes from an entry of `s`, and every entry
/// of a sequence with distinct keys is bound as it stands.
pub proof fn lemma_map_of<A>(s: Seq<(Key, A)>)
    ensures
        forall|k: Key| #[trigger]
            map_of(s).contains_key(k) ==> exists|i: int| 0 <= i < s.len() && s[i].0 == k,
        forall|i: int| 0 <= i < s.len() ==> #[trigger] map_of(s).contains_key(s[i].0),
        keys_unique(s) ==> forall|i: int|
            0 <= i < s.len() ==> #[trigger] map_of(s)[s[i].0] == s[i].1,
    decreases s.len(),
{
    if s.len() > 0 {
        let p = s.drop_last();
        lemma_map_of(p);
        assert(map_of(s) == map_of(p).insert(s.last().0, s.last().1));
        assert forall|k: Key| #[trigger]
            map_of(s).contains_key(k) implies exists|i: int| 0 <= i < s.len() && s[i].0 == k by {
            if k != s.last().0 {
                assert(map_of(p).contains_key(k));
                let i = choose|i: int| 0 <= i < p.len() && p[i].0 == k;
                assert(s[i].0 == k);
            } else {
                assert(s[s.len() - 1].0 == k);
            }
        }
        assert forall|i: int| 0 <= i < s.len() implies #[trigger] map_of(s).contains_key(
            s[i].0,
        ) by {
            if i < s.len() - 1 {
                assert(p[i] == s[i]);
            }
        }
        if keys_unique(s) {
            assert(keys_unique(p));
            assert forall|i: int| 0 <= i < s.len() implies #[trigger] map_of(s)[s[i].0]
                == s[i].1 by {
                if i < s.len() - 1 {
                    assert(p[i] == s[i]);
                }
            }
        }
    }
}

/// A table from keys to actions. Each key has at most one binding.
pub struct Keymap<A> {
    entries: Vec<(Key, A)>,
}

impl<A: Copy> Keymap<A> {
    /// The bindings, as a map from key to action.
    pub closed spec fn view(&self) -> Map<Key, A> {
        map_of(self.entries@)
    }

    /// No key is bound twice.
    pub closed spec fn wf(&self) -> bool {
        keys_unique(self.entries@)
    }

    /// An empty keymap.
    pub fn new() -> (r: Self)
        ensures
            r.wf(),
            r@ == Map::<Key, A>::empty(),
    {
        Keymap { entries: Vec::new() }
    }

    /// The index of the binding of `key`, if there is one.
    fn find(&self, key: &Key) -> (r: Option<usize>)
        requires
            self.wf(),
        ensures
            match r {
                Some(i) => i < self.entries@.len() && self.entries@[i as int].0 == *key,
                None => forall|i: int| 0 <= i < self.entries@.len() ==> self.entries@[i].0 != *key,
            },
    {
        let mut i: usize = 0;
        while i < self.entries.len()
            invariant
                i <= self.entries@.len(),
                forall|j: int| 0 <= j < i ==> self.entries@[j].0 != *key,
            decreases self.entries@.len() - i,
        {
            if self.entries[i].0 == *key {
                return Some(i);
            }
            i = i + 1;
        }
        None
    }

    /// The action bound to `key`, if any.
    pub fn lookup(&self, key: &Key) -> (r: Option<A>)
        requires
            self.wf(),
        ensures
            r == bound_to(self@, *key),
    {
        proof {
            lemma_map_of(self.entries@);
        }
        match self.find(key) {
            Some(i) => Some(self.entries[i].1),
            None => None,
        }
    }

    /// Binds `key` to `action`, replacing any binding it had.
    pub fn insert(&mut self, key: Key, action: A)
        requires
            old(self).wf(),
        ensures
            final(self).wf(),
            final(self)@ == old(self)@.insert(key, action),
    {
        let ghost s = self.entries@;
        proof {
            lemma_map_of(s);
        }
        match self.find(&key) {
            Some(i) => {
                self.entries.set(i, (key, action));
                let ghost t = self.entries@;
                assert(t == s.update(i as int, (key, action)));
                proof {
                    lemma_map_of(t);
                }
                assert forall|k: Key| #[trigger] map_of(t).contains_key(k) == map_of(s).insert(
                    key,
                    action,
                ).contains_key(k) by {
                    if map_of(t).contains_key(k) {
                        let j = choose|j: int| 0 <= j < t.len() && t[j].0 == k;
                        if j != i {
                            assert(s[j] == t[j]);
                        }
                    }
                    if k == key {
                        assert(map_of(t).contains_key(t[i as int].0));
                    } else if map_of(s).contains_key(k) {
                        let j = choose|j: int| 0 <= j < s.len() && s[j].0 == k;
                        assert(s[j] == t[j]);
                        assert(map_of(t).contains_key(t[j].0));
                    }
                }
                assert forall|k: Key| #[trigger] map_of(t).contains_key(k) implies map_of(t)[k]
                    == map_of(s).insert(key, action)[k] by {
                    let j = choose|j: int| 0 <= j < t.len() && t[j].0 == k;
                    if j != i {
                        assert(s[j] == t[j]);
                    }
                }
                assert(map_of(t) =~= map_of(s).insert(key, action));
            },
            None => {
                self.entries.push((key, action));
                assert(self.entries@.drop_last() == s);
            },
        }
    }

    /// Removes the binding of `key`; a key that is not bound is left alone.
    pub fn remove(&mut self, key: &Key)
        requires
            old(self).wf(),
        ensures
            final(self).wf(),
            final(self)@ == old(self)@.remove(*key),
    {
        let ghost s = self.entries@;
        proof {
            lemma_map_of(s);
        }
        match self.find(key) {
            Some(i) => {
                self.entries.remove(i);
                let ghost t = self.entries@;
                assert(t == s.remove(i as int));
                assert(keys_unique(t)) by {
                    assert forall|a: int, b: int| 0 <= a < b < t.len() implies t[a].0 != t[b].0 by {
                        let a2 = if a < i { a } else { a + 1 };
                        let b2 = if b < i { b } else { b + 1 };
                        assert(t[a] == s[a2] && t[b] == s[b2]);
                    }
                }
                proof {
                    lemma_map_of(t);
                }
                assert forall|k: Key| #[trigger] map_of(t).contains_key(k) == map_of(s).remove(
                    *key,
                ).contains_key(k) by {
                    if map_of(t).contains_key(k) {
                        let j = choose|j: int| 0 <= j < t.len() && t[j].0 == k;
                        let j2 = if j < i { j } else { j + 1 };
                        assert(t[j] == s[j2]);
                    }
                    if map_of(s).contains_key(k) && k != *key {
                        let j = choose|j: int| 0 <= j < s.len() && s[j].0 == k;
                        let j2 = if j < i { j } else { j - 1 };
                        assert(t[j2] == s[j]);
                    }
                }
                assert forall|k: Key| #[trigger] map_of(t).contains_key(k) implies map_of(t)[k]
                    == map_of(s).remove(*key)[k] by {
                    let j = choose|j: int| 0 <= j < t.len() && t[j].0 == k;
                    let j2 = if j < i { j } else { j + 1 };
                    assert(t[j] == s[j2]);
                }
                assert(map_of(t) =~= map_of(s).remove(*key));
            },
            None => {
                assert(map_of(s) =~= map_of(s).remove(*key));
            },
        }
    }
}

} // verus!
