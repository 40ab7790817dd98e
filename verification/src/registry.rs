//! The session registry: a mapping from session identifiers to that
//! session's output-channel producer handle. Registration overwrites,
//! lookup is a point-in-time snapshot, and removal of an absent entry is a
//! no-op. The registry is the only state shared across sessions; callers
//! hold it under one mutual-exclusion boundary.

use vstd::prelude::*;

verus! {

/// Maps each session identifier to its channel producer handle.
pub struct SessionRegistry<T> {
    entries: Vec<(String, T)>,
}

impl<T> SessionRegistry<T> {
    /// No two entries carry the same identifier.
    spec fn keys_unique(s: Seq<(String, T)>) -> bool {
        forall|i: int, j: int| 0 <= i < j < s.len() ==> s[i].0@ != s[j].0@
    }

    /// Well-formedness: the backing entries hold each identifier once.
    pub closed spec fn wf(&self) -> bool {
        Self::keys_unique(self.entries@)
    }

    /// The mapping held by a sequence of entries; later entries win.
    spec fn map_of(s: Seq<(String, T)>) -> Map<Seq<char>, T>
        decreases s.len(),
    {
        if s.len() == 0 {
            Map::empty()
        } else {
            Self::map_of(s.drop_last()).insert(s.last().0@, s.last().1)
        }
    }

    proof fn lemma_map_of_contains(s: Seq<(String, T)>, k: Seq<char>)
        ensures
            Self::map_of(s).contains_key(k) <==> (exists|i: int|
                0 <= i < s.len() && s[i].0@ == k),
        decreases s.len(),
    {
        if s.len() == 0 {
        } else {
            Self::lemma_map_of_contains(s.drop_last(), k);
            if s.last().0@ == k {
                assert(s[s.len() - 1].0@ == k);
            } else {
                if exists|i: int| 0 <= i < s.len() && s[i].0@ == k {
                    let i = choose|i: int| 0 <= i < s.len() && s[i].0@ == k;
                    assert(s.drop_last()[i] == s[i]);
                }
                if Self::map_of(s.drop_last()).contains_key(k) {
                    let i = choose|i: int| 0 <= i < s.drop_last().len() && s.drop_last()[i].0@ == k;
                    assert(s[i].0@ == k);
                }
            }
        }
    }

    proof fn lemma_map_of_index(s: Seq<(String, T)>, i: int)
        requires
            Self::keys_unique(s),
            0 <= i < s.len(),
        ensures
            Self::map_of(s).contains_key(s[i].0@),
            Self::map_of(s)[s[i].0@] == s[i].1,
        decreases s.len(),
    {
        if i == s.len() - 1 {
        } else {
            assert(s.drop_last()[i] == s[i]);
            Self::lemma_map_of_index(s.drop_last(), i);
        }
    }

    proof fn lemma_map_of_remove(s: Seq<(String, T)>, i: int)
        requires
            Self::keys_unique(s),
            0 <= i < s.len(),
        ensures
            Self::map_of(s.remove(i)) == Self::map_of(s).remove(s[i].0@),
        decreases s.len(),
    {
        let k = s[i].0@;
        if i == s.len() - 1 {
            assert(s.remove(i) =~= s.drop_last());
            Self::lemma_map_of_contains(s.drop_last(), k);
            assert forall|j: int| 0 <= j < s.drop_last().len() implies s.drop_last()[j].0@ != k by {
                assert(s.drop_last()[j] == s[j]);
            }
            assert(!Self::map_of(s.drop_last()).contains_key(k));
            assert(Self::map_of(s).remove(k) =~= Self::map_of(s.drop_last()));
        } else {
            assert(s.remove(i).drop_last() =~= s.drop_last().remove(i));
            assert(s.remove(i).last() == s.last());
            Self::lemma_map_of_remove(s.drop_last(), i);
            assert(s.drop_last()[i] == s[i]);
            assert(Self::map_of(s.remove(i)) == Self::map_of(s.drop_last()).remove(k).insert(
                s.last().0@,
                s.last().1,
            ));
            assert(s.last().0@ != k);
            assert(Self::map_of(s.drop_last()).remove(k).insert(s.last().0@, s.last().1)
                =~= Self::map_of(s).remove(k));
        }
    }

    /// An empty registry.
    pub fn new() -> (r: Self)
        ensures
            r.wf(),
            r@ == Map::<Seq<char>, T>::empty(),
    {
        SessionRegistry { entries: Vec::new() }
    }

    /// The index of the entry for `id`, if one exists.
    fn find(&self, id: &String) -> (r: Option<usize>)
        ensures
            match r {
                Some(i) => i < self.entries@.len() && self.entries@[i as int].0@ == id@,
                None => forall|j: int| 0 <= j < self.entries@.len() ==> self.entries@[j].0@ != id@,
            },
    {
        let mut i: usize = 0;
        while i < self.entries.len()
            invariant
                i <= self.entries@.len(),
                forall|j: int| 0 <= j < i ==> self.entries@[j].0@ != id@,
            decreases self.entries@.len() - i,
        {
            if self.entries[i].0.eq(id) {
                return Some(i);
            }
            i = i + 1;
        }
        None
    }

    /// Inserts unconditionally, overwriting any stale entry with the same
    /// identifier.
    pub fn register(&mut self, id: String, chan: T)
        requires
            old(self).wf(),
        ensures
            final(self).wf(),
            final(self)@ == old(self)@.insert(id@, chan),
    {
        self.remove(&id);
        proof {
            Self::lemma_map_of_contains(self.entries@, id@);
        }
        let ghost mid = self.entries@;
        self.entries.push((id, chan));
        proof {
            assert(self.entries@.drop_last() =~= mid);
            assert(forall|j: int| 0 <= j < mid.len() ==> mid[j].0@ != id@);
            assert(Self::keys_unique(self.entries@));
            assert(Self::map_of(mid).insert(id@, chan) =~= old(self)@.insert(id@, chan));
        }
    }

    /// A point-in-time snapshot of the channel for `id`.
    pub fn lookup(&self, id: &String) -> (r: Option<&T>)
        requires
            self.wf(),
        ensures
            match r {
                Some(c) => self@.contains_key(id@) && *c == self@[id@],
                None => !self@.contains_key(id@),
            },
    {
        match self.find(id) {
            Some(i) => {
                proof {
                    Self::lemma_map_of_index(self.entries@, i as int);
                }
                Some(&self.entries[i].1)
            },
            None => {
                proof {
                    Self::lemma_map_of_contains(self.entries@, id@);
                }
                None
            },
        }
    }

    /// Deletes the entry for `id` if present; a no-op otherwise.
    pub fn remove(&mut self, id: &String)
        requires
            old(self).wf(),
        ensures
            final(self).wf(),
            final(self)@ == old(self)@.remove(id@),
    {
        match self.take(id) {
            Some(_) => (),
            None => {
                proof {
                    assert(old(self)@.remove(id@) =~= old(self)@);
                }
            },
        }
    }

    /// Removes and returns the channel for `id`, if one is registered.
    pub fn take(&mut self, id: &String) -> (r: Option<T>)
        requires
            old(self).wf(),
        ensures
            final(self).wf(),
            match r {
                Some(c) => old(self)@.contains_key(id@) && c == old(self)@[id@] && final(self)@
                    == old(self)@.remove(id@),
                None => !old(self)@.contains_key(id@) && final(self)@ == old(self)@,
            },
    {
        match self.find(id) {
            Some(i) => {
                proof {
                    Self::lemma_map_of_index(self.entries@, i as int);
                    Self::lemma_map_of_remove(self.entries@, i as int);
                }
                let ghost pre = self.entries@;
                let entry = self.entries.remove(i);
                proof {
                    assert forall|a: int, b: int|
                        0 <= a < b < self.entries@.len() implies self.entries@[a].0@
                        != self.entries@[b].0@ by {
                        assert(self.entries@[a] == if a < i as int {
                            pre[a]
                        } else {
                            pre[a + 1]
                        });
                        assert(self.entries@[b] == if b < i as int {
                            pre[b]
                        } else {
                            pre[b + 1]
                        });
                    }
                }
                Some(entry.1)
            },
            None => {
                proof {
                    Self::lemma_map_of_contains(self.entries@, id@);
                }
                None
            },
        }
    }
}

impl<T> View for SessionRegistry<T> {
    type V = Map<Seq<char>, T>;

    closed spec fn view(&self) -> Map<Seq<char>, T> {
        Self::map_of(self.entries@)
    }
}

} // verus!
