//! An id-keyed table: the arena both components persist their records in.
//! Entries are held in insertion order in a vector of `(id, value)` pairs with
//! pairwise-distinct ids; the abstract content is the finite map from id to
//! value.

use vstd::prelude::*;

verus! {

/// No two entries carry the same id.
pub open spec fn unique_keys<V>(s: Seq<(u64, V)>) -> bool {
    forall|i: int, j: int|
        #![trigger s[i].0, s[j].0]
        0 <= i < j < s.len() ==> s[i].0 != s[j].0
}

/// The finite map described by an entry sequence; a later entry for an id
/// overrides an earlier one.
pub open spec fn map_of<V>(s: Seq<(u64, V)>) -> Map<u64, V>
    decreases s.len(),
{
    if s.len() == 0 {
        Map::empty()
    } else {
        map_of(s.drop_last()).insert(s.last().0, s.last().1)
    }
}

/// An id is in the map exactly when some entry carries it.
pub proof fn lemma_map_of_dom<V>(s: Seq<(u64, V)>)
    ensures
        forall|k: u64|
            map_of(s).dom().contains(k) <==> exists|i: int| 0 <= i < s.len() && s[i].0 == k,
    decreases s.len(),
{
    if s.len() > 0 {
        lemma_map_of_dom(s.drop_last());
        assert forall|k: u64| map_of(s).dom().contains(k) implies exists|i: int|
            0 <= i < s.len() && s[i].0 == k by {
            assert(map_of(s) == map_of(s.drop_last()).insert(s.last().0, s.last().1));
            if k == s.last().0 {
                assert(s[s.len() - 1].0 == k);
            } else {
                assert(map_of(s.drop_last()).dom().contains(k));
                let i = choose|i: int| 0 <= i < s.drop_last().len() && s.drop_last()[i].0 == k;
                assert(s.drop_last()[i] == s[i]);
                assert(s[i].0 == k);
            }
        }
        assert forall|k: u64|
            (exists|i: int| 0 <= i < s.len() && s[i].0 == k) implies map_of(s).dom().contains(
            k,
        ) by {
            assert(map_of(s) == map_of(s.drop_last()).insert(s.last().0, s.last().1));
            let i = choose|i: int| 0 <= i < s.len() && s[i].0 == k;
            if i < s.len() - 1 {
                assert(s.drop_last()[i].0 == k);
                assert(map_of(s.drop_last()).dom().contains(k));
            } else {
                assert(s.last().0 == k);
            }
        }
    }
}

/// Under distinct ids, the map sends each entry's id to that entry's value.
pub proof fn lemma_map_of_index<V>(s: Seq<(u64, V)>, i: int)
    requires
        unique_keys(s),
        0 <= i < s.len(),
    ensures
        map_of(s).dom().contains(s[i].0),
        map_of(s)[s[i].0] == s[i].1,
    decreases s.len(),
{
    if i < s.len() - 1 {
        assert(unique_keys(s.drop_last()));
        assert(s.drop_last()[i] == s[i]);
        lemma_map_of_index(s.drop_last(), i);
        assert(s[i].0 != s.last().0);
    }
}

/// Appending an entry inserts it into the map; a fresh id keeps the ids
/// pairwise distinct.
pub proof fn lemma_map_of_push<V>(s: Seq<(u64, V)>, key: u64, value: V)
    ensures
        map_of(s.push((key, value))) == map_of(s).insert(key, value),
        unique_keys(s) && (forall|i: int| 0 <= i < s.len() ==> s[i].0 != key) ==> unique_keys(
            s.push((key, value)),
        ),
{
    assert(s.push((key, value)).drop_last() =~= s);
    assert(s.push((key, value)).last() == (key, value));
}

/// Overwriting the entry that carries an id updates the map at that id.
pub proof fn lemma_map_of_update<V>(s: Seq<(u64, V)>, i: int, key: u64, value: V)
    requires
        unique_keys(s),
        0 <= i < s.len(),
        s[i].0 == key,
    ensures
        map_of(s.update(i, (key, value))) == map_of(s).insert(key, value),
        unique_keys(s.update(i, (key, value))),
    decreases s.len(),
{
    let s2 = s.update(i, (key, value));
    assert forall|x: int, y: int| 0 <= x < y < s2.len() implies s2[x].0 != s2[y].0 by {
        assert(s2[x].0 == s[x].0);
        assert(s2[y].0 == s[y].0);
    }
    if i == s.len() - 1 {
        assert(s2.drop_last() =~= s.drop_last());
        assert(s2.last() == (key, value));
        assert(map_of(s2) =~= map_of(s).insert(key, value));
    } else {
        assert(unique_keys(s.drop_last()));
        assert(s.drop_last()[i] == s[i]);
        lemma_map_of_update(s.drop_last(), i, key, value);
        assert(s2.drop_last() =~= s.drop_last().update(i, (key, value)));
        assert(s2.last() == s.last());
        assert(s[i].0 != s.last().0);
        assert(map_of(s2) =~= map_of(s).insert(key, value));
    }
}

/// Every id the map sends somewhere is sent to some entry's value.
pub proof fn lemma_map_of_values<V>(s: Seq<(u64, V)>)
    ensures
        forall|k: u64| #[trigger]
            map_of(s).dom().contains(k) ==> exists|i: int|
                0 <= i < s.len() && s[i].0 == k && s[i].1 == map_of(s)[k],
    decreases s.len(),
{
    if s.len() > 0 {
        lemma_map_of_values(s.drop_last());
        assert forall|k: u64| #[trigger] map_of(s).dom().contains(k) implies exists|i: int|
            0 <= i < s.len() && s[i].0 == k && s[i].1 == map_of(s)[k] by {
            assert(map_of(s) == map_of(s.drop_last()).insert(s.last().0, s.last().1));
            if k == s.last().0 {
                assert(s[s.len() - 1].0 == k && s[s.len() - 1].1 == map_of(s)[k]);
            } else {
                assert(map_of(s.drop_last()).dom().contains(k));
                let i = choose|i: int|
                    0 <= i < s.drop_last().len() && s.drop_last()[i].0 == k && s.drop_last()[i].1
                        == map_of(s.drop_last())[k];
                assert(s[i].0 == k && s[i].1 == map_of(s)[k]);
            }
        }
    }
}

/// A table of records keyed by `u64` ids.
pub struct Table<V> {
    entries: Vec<(u64, V)>,
}

impl<V> View for Table<V> {
    type V = Map<u64, V>;

    closed spec fn view(&self) -> Map<u64, V> {
        map_of(self.entries@)
    }
}

impl<V> Table<V> {
    /// The entry sequence behind the table, in insertion order.
    pub closed spec fn spec_entries(self) -> Seq<(u64, V)> {
        self.entries@
    }

    /// Ids are pairwise distinct, so the entry sequence and the map agree.
    pub closed spec fn wf(self) -> bool {
        unique_keys(self.entries@)
    }

    /// An empty table.
    pub fn new() -> (t: Table<V>)
        ensures
            t.wf(),
            t@ == Map::<u64, V>::empty(),
            t.spec_entries() == Seq::<(u64, V)>::empty(),
    {
        Table { entries: Vec::new() }
    }

    /// Read-only access to the entry sequence, for a host that persists the
    /// table.
    pub fn entries(&self) -> (r: &Vec<(u64, V)>)
        ensures
            r@ == self.spec_entries(),
            map_of(r@) == self@,
    {
        &self.entries
    }

    /// Rebuilds a table from persisted entries, in order: a later entry for
    /// an id overrides an earlier one, exactly as in the map the sequence
    /// describes.
    pub fn from_entries(entries: Vec<(u64, V)>) -> (t: Table<V>)
        ensures
            t.wf(),
            t@ == map_of(entries@),
    {
        let ghost orig = entries@;
        let mut remaining = entries;
        let mut t = Table::new();
        proof {
            assert(orig.subrange(0, 0) =~= Seq::<(u64, V)>::empty());
        }
        while remaining.len() > 0
            invariant
                t.wf(),
                remaining@.len() <= orig.len(),
                remaining@ =~= orig.subrange(orig.len() - remaining@.len(), orig.len() as int),
                t@ == map_of(orig.subrange(0, orig.len() - remaining@.len())),
            decreases remaining@.len(),
        {
            let ghost i = orig.len() - remaining@.len();
            let entry = remaining.remove(0);
            t.set(entry.0, entry.1);
            proof {
                assert(orig.subrange(0, i + 1) =~= orig.subrange(0, i as int).push(entry));
                lemma_map_of_push(orig.subrange(0, i as int), entry.0, entry.1);
                assert(remaining@ =~= orig.subrange(i + 1, orig.len() as int));
            }
        }
        proof {
            assert(orig.subrange(0, orig.len() as int) =~= orig);
        }
        t
    }

    /// Looks a record up by id.
    pub fn get(&self, key: u64) -> (r: Option<&V>)
        requires
            self.wf(),
        ensures
            match r {
                Some(v) => self@.dom().contains(key) && *v == self@[key],
                None => !self@.dom().contains(key),
            },
    {
        let n = self.entries.len();
        let mut i: usize = 0;
        while i < n
            invariant
                n == self.entries@.len(),
                i <= n,
                self.wf(),
                forall|j: int| 0 <= j < i ==> self.entries@[j].0 != key,
            decreases n - i,
        {
            if self.entries[i].0 == key {
                proof {
                    lemma_map_of_index(self.entries@, i as int);
                }
                return Some(&self.entries[i].1);
            }
            i = i + 1;
        }
        proof {
            lemma_map_of_dom(self.entries@);
        }
        None
    }

    /// Stores a record under an id, overwriting any record already there.
    pub fn set(&mut self, key: u64, value: V)
        requires
            old(self).wf(),
        ensures
            final(self).wf(),
            final(self)@ == old(self)@.insert(key, value),
    {
        let n = self.entries.len();
        let mut i: usize = 0;
        while i < n
            invariant
                n == self.entries@.len(),
                i <= n,
                self.wf(),
                self.entries@ == old(self).entries@,
                forall|j: int| 0 <= j < i ==> self.entries@[j].0 != key,
            decreases n - i,
        {
            if self.entries[i].0 == key {
                proof {
                    lemma_map_of_update(self.entries@, i as int, key, value);
                }
                self.entries.set(i, (key, value));
                return ;
            }
            i = i + 1;
        }
        proof {
            lemma_map_of_push(self.entries@, key, value);
        }
        self.entries.push((key, value));
    }
}

} // verus!
