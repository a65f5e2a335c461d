//! Small collections with keys that are compared for equality only.
//!
//! The keys are structs and enums.  Of std's maps nothing can be proved with such keys: what is
//! specified of them holds for integers and the like.  Entries stand in a vector and are searched
//! from its end.

use vstd::prelude::*;

verus! {

/// A key that code can compare for equality.
pub trait Key: Sized {
    fn same(&self, other: &Self) -> (b: bool)
        ensures
            b == (*self == *other),
    ;
}

impl<A: Key, B: Key> Key for (A, B) {
    fn same(&self, other: &Self) -> (b: bool) {
        self.0.same(&other.0) && self.1.same(&other.1)
    }
}

impl Key for u64 {
    fn same(&self, other: &Self) -> (b: bool) {
        *self == *other
    }
}

/// A condition on keys and values that code can decide.
pub trait Accepts<K, V> {
    /// The condition.
    spec fn accepts(&self, k: K, v: V) -> bool;

    /// Whether it holds.
    fn accept(&self, k: &K, v: &V) -> (b: bool)
        ensures
            b == self.accepts(*k, *v),
    ;
}

/// The value that the last row with key `k` holds.
pub open spec fn lookup<K, V>(rows: Seq<(K, V)>, k: K) -> Option<V>
    decreases rows.len(),
{
    if rows.len() == 0 {
        None
    } else if rows.last().0 == k {
        Some(rows.last().1)
    } else {
        lookup(rows.drop_last(), k)
    }
}

/// A key has a value exactly where some row has that key.
pub proof fn lemma_lookup<K, V>(rows: Seq<(K, V)>, k: K)
    ensures
        lookup(rows, k) is Some <==> exists|i: int| 0 <= i < rows.len() && (#[trigger] rows[i]).0 == k,
    decreases rows.len(),
{
    if rows.len() > 0 {
        let init = rows.drop_last();
        lemma_lookup(init, k);
        if rows.last().0 == k {
            assert(rows[rows.len() - 1].0 == k);
        } else if lookup(init, k) is Some {
            let i = choose|i: int| 0 <= i < init.len() && (#[trigger] init[i]).0 == k;
            assert(rows[i].0 == k);
        } else if exists|i: int| 0 <= i < rows.len() && (#[trigger] rows[i]).0 == k {
            let i = choose|i: int| 0 <= i < rows.len() && (#[trigger] rows[i]).0 == k;
            assert(init[i].0 == k);
        }
    }
}

/// A finite map from keys to values.
pub struct Table<K, V> {
    rows: Vec<(K, V)>,
}

impl<K, V> View for Table<K, V> {
    type V = Map<K, V>;

    closed spec fn view(&self) -> Map<K, V> {
        Map::new(
            |k: K| lookup(self.rows@, k) is Some,
            |k: K| lookup(self.rows@, k)->0,
        )
    }
}

impl<K, V> Table<K, V> {
    /// The entries in the order of their insertion, with those that were set anew later.
    pub closed spec fn order(&self) -> Seq<(K, V)> {
        self.rows@
    }
}

impl<K: Key, V> Table<K, V> {
    /// A table without entries.
    pub fn new() -> (t: Self)
        ensures
            t@ == Map::<K, V>::empty(),
            t.order() == Seq::<(K, V)>::empty(),
    {
        let t = Table { rows: Vec::new() };
        assert(t@ =~= Map::<K, V>::empty());
        t
    }

    /// Sets the value of `k`.
    pub fn insert(&mut self, k: K, v: V)
        ensures
            final(self)@ == old(self)@.insert(k, v),
            final(self).order() == old(self).order().push((k, v)),
    {
        let ghost before = self.rows@;
        self.rows.push((k, v));
        proof {
            let after = self.rows@;
            assert(after.drop_last() =~= before);
            assert(after.last() == (k, v));
            assert(self@ =~= old(self)@.insert(k, v));
        }
    }

    /// The value of `k`, if it has one.
    pub fn get(&self, k: &K) -> (r: Option<&V>)
        ensures
            match r {
                Some(v) => self@.dom().contains(*k) && *v == self@[*k],
                None => !self@.dom().contains(*k),
            },
    {
        let mut i: usize = self.rows.len();
        assert(self.rows@.take(i as int) =~= self.rows@);
        while i > 0
            invariant
                i <= self.rows.len(),
                lookup(self.rows@.take(i as int), *k) == lookup(self.rows@, *k),
            decreases i,
        {
            i = i - 1;
            proof {
                let prefix = self.rows@.take(i + 1);
                assert(prefix.drop_last() =~= self.rows@.take(i as int));
                assert(prefix.last() == self.rows@[i as int]);
            }
            if self.rows[i].0.same(k) {
                return Some(&self.rows[i].1);
            }
        }
        None
    }

    /// The entries in the order of their insertion; of two with the same key the later holds.
    pub fn rows(&self) -> (rows: &[(K, V)])
        ensures
            rows@ == self.order(),
            forall|k: K|
                #[trigger] self@.dom().contains(k) <==> lookup(rows@, k) is Some,
            forall|k: K|
                #[trigger] self@.dom().contains(k) ==> lookup(rows@, k) == Some(self@[k]),
    {
        self.rows.as_slice()
    }

    /// Whether all keys are accepted with their values.
    pub(crate) fn all<C: Accepts<K, V>>(&self, c: &C) -> (b: bool)
        ensures
            b <==> forall|k: K| #[trigger]
                self@.dom().contains(k) ==> c.accepts(k, self@[k]),
    {
        let mut i: usize = 0;
        while i < self.rows.len()
            invariant
                i <= self.rows.len(),
                forall|j: int|
                    0 <= j < i ==> c.accepts(
                        (#[trigger] self.rows@[j]).0,
                        self@[self.rows@[j].0],
                    ),
            decreases self.rows.len() - i,
        {
            let k = &self.rows[i].0;
            proof {
                lemma_lookup(self.rows@, *k);
            }
            assert(self@.dom().contains(*k));
            if let Some(v) = self.get(k) {
                if !c.accept(k, v) {
                    return false;
                }
            }
            i = i + 1;
        }
        assert forall|k: K| #[trigger] self@.dom().contains(k) implies c.accepts(k, self@[k]) by {
            lemma_lookup(self.rows@, k);
            let j = choose|j: int| 0 <= j < self.rows@.len() && (#[trigger] self.rows@[j]).0 == k;
        }
        true
    }
}

/// A finite set that keeps its elements in the order of their first insertion.
pub struct KeySet<K> {
    items: Vec<K>,
}

impl<K> View for KeySet<K> {
    type V = Set<K>;

    closed spec fn view(&self) -> Set<K> {
        self.items@.to_set()
    }
}

impl<K> KeySet<K> {
    /// Nothing occurs twice.
    pub closed spec fn wf(&self) -> bool {
        self.items@.no_duplicates()
    }

    /// The elements in the order of their first insertion.
    pub closed spec fn order(&self) -> Seq<K> {
        self.items@
    }
}

impl<K: Key> KeySet<K> {
    /// A set without elements.
    pub fn new() -> (s: Self)
        ensures
            s.wf(),
            s@ == Set::<K>::empty(),
            s.order() == Seq::<K>::empty(),
    {
        let s = KeySet { items: Vec::new() };
        assert(s@ =~= Set::<K>::empty());
        s
    }

    /// Whether `k` is an element.
    pub fn contains(&self, k: &K) -> (b: bool)
        ensures
            b == self@.contains(*k),
    {
        let mut i: usize = 0;
        while i < self.items.len()
            invariant
                i <= self.items.len(),
                forall|j: int| 0 <= j < i ==> self.items@[j] != *k,
            decreases self.items.len() - i,
        {
            if self.items[i].same(k) {
                assert(self.items@[i as int] == *k);
                return true;
            }
            i = i + 1;
        }
        assert(!self.items@.contains(*k));
        false
    }

    /// Adds `k`; true where it was not an element before.
    pub fn insert(&mut self, k: K) -> (added: bool)
        requires
            old(self).wf(),
        ensures
            final(self).wf(),
            final(self)@ == old(self)@.insert(k),
            added == !old(self)@.contains(k),
            final(self).order() == (if added {
                old(self).order().push(k)
            } else {
                old(self).order()
            }),
    {
        if self.contains(&k) {
            assert(self@.insert(k) =~= self@);
            false
        } else {
            let ghost before = self.items@;
            assert(!before.contains(k)) by {
                assert(!self@.contains(k));
            }
            self.items.push(k);
            proof {
                let after = self.items@;
                assert forall|x: K| after.to_set().contains(x) == before.to_set().insert(
                    k,
                ).contains(x) by {
                    if x == k {
                        assert(after[before.len() as int] == k);
                    }
                    if before.contains(x) {
                        let j = choose|j: int| 0 <= j < before.len() && before[j] == x;
                        assert(after[j] == x);
                    }
                }
                assert(self@ =~= old(self)@.insert(k));
            }
            true
        }
    }

    /// The elements in the order of their first insertion.
    pub fn as_slice(&self) -> (s: &[K])
        ensures
            s@ == self.order(),
            s@.to_set() == self@,
            self.wf() ==> s@.no_duplicates(),
    {
        self.items.as_slice()
    }
}

} // verus!
