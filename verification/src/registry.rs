//! Correlation registry: the bookkeeping between dispatch and completion.
//! Each in-flight request is held under its callback identifier; at most one
//! entry per identifier ever exists, and completion removes the entry and
//! hands its pending state to exactly the request that registered it.

use vstd::prelude::*;

verus! {

/// No two entries share an identifier.
pub open spec fn keys_unique<T>(s: Seq<(u64, T)>) -> bool {
    forall|i: int, j: int| 0 <= i < j < s.len() ==> s[i].0 != s[j].0
}

/// The mapping from identifier to pending state that an entry list stands
/// for.
pub open spec fn entries_map<T>(s: Seq<(u64, T)>) -> Map<u64, T>
    decreases s.len(),
{
    if s.len() == 0 {
        Map::empty()
    } else {
        entries_map(s.drop_last()).insert(s.last().0, s.last().1)
    }
}

proof fn lemma_entries_map_key<T>(s: Seq<(u64, T)>, k: u64)
    ensures
        entries_map(s).contains_key(k) <==> exists|i: int| 0 <= i < s.len() && s[i].0 == k,
    decreases s.len(),
{
    if s.len() > 0 {
        lemma_entries_map_key(s.drop_last(), k);
        if s.last().0 == k {
            assert(s[s.len() - 1].0 == k);
        } else if entries_map(s).contains_key(k) {
            let i = choose|i: int| 0 <= i < s.drop_last().len() && s.drop_last()[i].0 == k;
            assert(s[i].0 == k);
        } else if exists|i: int| 0 <= i < s.len() && s[i].0 == k {
            let i = choose|i: int| 0 <= i < s.len() && s[i].0 == k;
            assert(i < s.len() - 1);
            assert(s.drop_last()[i].0 == k);
        }
    }
}

proof fn lemma_entries_map_index<T>(s: Seq<(u64, T)>, i: int)
    requires
        keys_unique(s),
        0 <= i < s.len(),
    ensures
        entries_map(s).contains_key(s[i].0),
        entries_map(s)[s[i].0] == s[i].1,
    decreases s.len(),
{
    if i == s.len() - 1 {
    } else {
        assert(keys_unique(s.drop_last()));
        assert(s.drop_last()[i] == s[i]);
        lemma_entries_map_index(s.drop_last(), i);
        assert(s.last().0 != s[i].0);
    }
}

proof fn lemma_entries_map_remove<T>(s: Seq<(u64, T)>, i: int)
    requires
        keys_unique(s),
        0 <= i < s.len(),
    ensures
        entries_map(s.remove(i)) == entries_map(s).remove(s[i].0),
    decreases s.len(),
{
    let k = s[i].0;
    if i == s.len() - 1 {
        assert(s.remove(i) =~= s.drop_last());
        lemma_entries_map_key(s.drop_last(), k);
        assert(forall|j: int| 0 <= j < s.drop_last().len() ==> s.drop_last()[j].0 != k);
        assert(!entries_map(s.drop_last()).contains_key(k));
        assert(entries_map(s.drop_last()).insert(k, s.last().1).remove(k) =~= entries_map(
            s.drop_last(),
        ));
    } else {
        assert(keys_unique(s.drop_last()));
        assert(s.drop_last()[i] == s[i]);
        lemma_entries_map_remove(s.drop_last(), i);
        assert(s.remove(i).drop_last() =~= s.drop_last().remove(i));
        assert(s.remove(i).last() == s.last());
        assert(s.last().0 != k);
        assert(entries_map(s.drop_last()).remove(k).insert(s.last().0, s.last().1) =~= entries_map(
            s.drop_last(),
        ).insert(s.last().0, s.last().1).remove(k));
    }
}

proof fn lemma_entries_map_len<T>(s: Seq<(u64, T)>)
    requires
        keys_unique(s),
    ensures
        entries_map(s).dom().finite(),
        entries_map(s).len() == s.len(),
    decreases s.len(),
{
    if s.len() > 0 {
        assert(keys_unique(s.drop_last()));
        lemma_entries_map_len(s.drop_last());
        lemma_entries_map_key(s.drop_last(), s.last().0);
        assert(forall|j: int| 0 <= j < s.drop_last().len() ==> s.drop_last()[j].0 != s.last().0);
        assert(!entries_map(s.drop_last()).contains_key(s.last().0));
    }
}

/// The registry of in-flight requests, keyed by callback identifier.
pub struct Registry<T> {
    entries: Vec<(u64, T)>,
}

impl<T> Registry<T> {
    /// The mapping this registry holds.
    pub closed spec fn spec_map(&self) -> Map<u64, T> {
        entries_map(self.entries@)
    }

    /// Well-formedness: at most one entry per identifier.
    pub closed spec fn inv(&self) -> bool {
        keys_unique(self.entries@)
    }

    /// An empty registry.
    pub fn new() -> (r: Registry<T>)
        ensures
            r.inv(),
            r.spec_map() == Map::<u64, T>::empty(),
    {
        Registry { entries: Vec::new() }
    }

    fn find_index(&self, id: u64) -> (r: Option<usize>)
        ensures
            match r {
                Some(i) => i < self.entries@.len() && self.entries@[i as int].0 == id,
                None => forall|j: int| 0 <= j < self.entries@.len() ==> self.entries@[j].0 != id,
            },
    {
        let mut i: usize = 0;
        while i < self.entries.len()
            invariant
                i <= self.entries@.len(),
                forall|j: int| 0 <= j < i ==> self.entries@[j].0 != id,
            decreases self.entries@.len() - i,
        {
            if self.entries[i].0 == id {
                return Some(i);
            }
            i += 1;
        }
        None
    }

    /// Is a request pending under this identifier?
    pub fn contains(&self, id: u64) -> (r: bool)
        requires
            self.inv(),
        ensures
            r == self.spec_map().contains_key(id),
    {
        proof {
            lemma_entries_map_key(self.entries@, id);
        }
        match self.find_index(id) {
            Some(_) => true,
            None => false,
        }
    }

    /// How many requests are pending.
    pub fn pending_count(&self) -> (r: usize)
        requires
            self.inv(),
        ensures
            r == self.spec_map().len(),
    {
        proof {
            lemma_entries_map_len(self.entries@);
        }
        self.entries.len()
    }

    /// Registers a pending request under an identifier. Fails, changing
    /// nothing, when the identifier is already taken: at most one entry per
    /// identifier ever exists.
    pub fn register(&mut self, id: u64, value: T) -> (r: bool)
        requires
            old(self).inv(),
        ensures
            final(self).inv(),
            r == !old(self).spec_map().contains_key(id),
            r ==> final(self).spec_map() == old(self).spec_map().insert(id, value),
            !r ==> *final(self) == *old(self),
    {
        proof {
            lemma_entries_map_key(self.entries@, id);
        }
        match self.find_index(id) {
            Some(_) => false,
            None => {
                self.entries.push((id, value));
                proof {
                    assert(self.entries@.drop_last() =~= old(self).entries@);
                }
                true
            },
        }
    }

    /// Takes the pending request registered under an identifier, removing
    /// its entry; yields nothing if no request is pending under it. An
    /// identifier is claimed at most once, and only by its own request.
    pub fn complete(&mut self, id: u64) -> (r: Option<T>)
        requires
            old(self).inv(),
        ensures
            final(self).inv(),
            match r {
                Some(v) => old(self).spec_map().contains_key(id) && v == old(self).spec_map()[id]
                    && final(self).spec_map() == old(self).spec_map().remove(id),
                None => !old(self).spec_map().contains_key(id) && *final(self) == *old(self),
            },
    {
        proof {
            lemma_entries_map_key(self.entries@, id);
        }
        match self.find_index(id) {
            Some(i) => {
                proof {
                    lemma_entries_map_index(self.entries@, i as int);
                    lemma_entries_map_remove(self.entries@, i as int);
                }
                let (_, v) = self.entries.remove(i);
                proof {
                    assert(keys_unique(self.entries@));
                }
                Some(v)
            },
            None => None,
        }
    }
}

} // verus!
