//! A map keyed by actor identity, kept as a vector sorted by key.
//!
//! The map is read through two models: `pairs`, the entries in key order, and
//! the view `@`, the finite map they stand for. Lookups are binary searches.
//!
//! The entries of a map are always ordered, and ordered entries are fixed by
//! the map that they stand for (`lemma_pairs_determined`): whoever knows the
//! view of a map knows its entries and their order.

use crate::actor::ActorId;
use vstd::prelude::*;

verus! {

/// Whether the keys of `s` strictly increase. Ordered entries hold no key
/// twice.
pub open spec fn ordered<V>(s: Seq<(ActorId, V)>) -> bool {
    forall|i: int, j: int|
        0 <= i < j < s.len() ==> (#[trigger] s[i]).0.precedes((#[trigger] s[j]).0)
}

/// Whether some entry of `s` has the key `k`.
pub open spec fn has_key<V>(s: Seq<(ActorId, V)>, k: ActorId) -> bool {
    exists|i: int| 0 <= i < s.len() && (#[trigger] s[i]).0 == k
}

/// The place of an entry of `s` with key `k`, if there is one.
pub open spec fn position<V>(s: Seq<(ActorId, V)>, k: ActorId) -> int {
    choose|i: int| 0 <= i < s.len() && (#[trigger] s[i]).0 == k
}

/// The map that the entries `s` stand for.
pub open spec fn as_map<V>(s: Seq<(ActorId, V)>) -> Map<ActorId, V> {
    Map::new(|k: ActorId| has_key(s, k), |k: ActorId| s[position(s, k)].1)
}

/// In ordered entries, each entry is what the map holds under its key.
pub proof fn lemma_entry_in_map<V>(s: Seq<(ActorId, V)>, i: int)
    requires
        ordered(s),
        0 <= i < s.len(),
    ensures
        as_map(s).contains_key(s[i].0),
        as_map(s)[s[i].0] == s[i].1,
{
    let k = s[i].0;
    assert(has_key(s, k));
    let j = position(s, k);
    assert(0 <= j < s.len() && s[j].0 == k);
    if j < i {
        assert(s[j].0.precedes(s[i].0));
    } else if i < j {
        assert(s[i].0.precedes(s[j].0));
    }
}

/// Every key of the map is the key of some entry.
pub proof fn lemma_key_has_entry<V>(s: Seq<(ActorId, V)>, k: ActorId)
    requires
        as_map(s).contains_key(k),
    ensures
        0 <= position(s, k) < s.len(),
        s[position(s, k)].0 == k,
        as_map(s)[k] == s[position(s, k)].1,
{
    assert(has_key(s, k));
}

/// A map from actor identities to values of type `V`.
#[derive(Debug)]
pub struct ActorMap<V> {
    entries: Vec<(ActorId, V)>,
}

impl<V> View for ActorMap<V> {
    type V = Map<ActorId, V>;

    open spec fn view(&self) -> Map<ActorId, V> {
        as_map(self.pairs())
    }
}

impl<V> ActorMap<V> {
    /// The entries in the order in which they are stored.
    pub closed spec fn pairs(&self) -> Seq<(ActorId, V)> {
        self.entries@
    }

    #[verifier::type_invariant]
    spec fn sorted(&self) -> bool {
        ordered(self.entries@)
    }
}

impl<V: Copy> ActorMap<V> {
    /// The empty map.
    pub fn new() -> (m: Self)
        ensures
            m.pairs() == Seq::<(ActorId, V)>::empty(),
            ordered(m.pairs()),
            m@ == Map::<ActorId, V>::empty(),
    {
        let m = ActorMap { entries: Vec::new() };
        assert(m@ =~= Map::<ActorId, V>::empty());
        m
    }

    /// The number of entries.
    pub fn len(&self) -> (n: usize)
        ensures
            n == self.pairs().len(),
    {
        self.entries.len()
    }

    /// Whether the map holds no entry.
    pub fn is_empty(&self) -> (r: bool)
        ensures
            r == (self.pairs().len() == 0),
            r == (self@ == Map::<ActorId, V>::empty()),
    {
        let r = self.entries.len() == 0;
        proof {
            if r {
                assert(self@ =~= Map::<ActorId, V>::empty());
            } else {
                use_type_invariant(self);
                lemma_entry_in_map(self.entries@, 0);
            }
        }
        r
    }

    /// The entry at place `i` in key order, or `None` past the end. The keys
    /// of a map strictly increase with the place.
    pub fn entry(&self, i: usize) -> (r: Option<(ActorId, V)>)
        ensures
            ordered(self.pairs()),
            r == (if i < self.pairs().len() {
                Some(self.pairs()[i as int])
            } else {
                None
            }),
            i < self.pairs().len() ==> self@.contains_key(self.pairs()[i as int].0)
                && self@[self.pairs()[i as int].0] == self.pairs()[i as int].1,
    {
        proof {
            use_type_invariant(self);
        }
        if i < self.entries.len() {
            proof {
                lemma_entry_in_map(self.entries@, i as int);
            }
            Some(self.entries[i])
        } else {
            None
        }
    }

    /// The first place whose key does not come before `k`, and whether the
    /// key at that place is `k`.
    fn locate(&self, k: &ActorId) -> (r: (usize, bool))
        ensures
            r.0 <= self.entries@.len(),
            forall|i: int| 0 <= i < r.0 ==> (#[trigger] self.entries@[i]).0.precedes(*k),
            forall|i: int|
                r.0 <= i < self.entries@.len() ==> !(#[trigger] self.entries@[i]).0.precedes(*k),
            r.1 == (r.0 < self.entries@.len() && self.entries@[r.0 as int].0 == *k),
            r.1 == self@.contains_key(*k),
    {
        proof {
            use_type_invariant(self);
        }
        let mut lo: usize = 0;
        let mut hi: usize = self.entries.len();
        while lo < hi
            invariant
                lo <= hi <= self.entries@.len(),
                ordered(self.entries@),
                forall|i: int| 0 <= i < lo ==> (#[trigger] self.entries@[i]).0.precedes(*k),
                forall|i: int|
                    hi <= i < self.entries@.len() ==> !(#[trigger] self.entries@[i]).0.precedes(
                        *k,
                    ),
            decreases hi - lo,
        {
            let mid: usize = lo + (hi - lo) / 2;
            if self.entries[mid].0.comes_before(k) {
                assert forall|i: int| 0 <= i < mid + 1 implies (
                #[trigger] self.entries@[i]).0.precedes(*k) by {
                    if i < mid {
                        assert(self.entries@[i].0.precedes(self.entries@[mid as int].0));
                    }
                }
                lo = mid + 1;
            } else {
                assert forall|i: int| mid <= i < self.entries@.len() implies !(
                #[trigger] self.entries@[i]).0.precedes(*k) by {
                    if mid < i {
                        assert(self.entries@[mid as int].0.precedes(self.entries@[i].0));
                    }
                }
                hi = mid;
            }
        }
        let found = lo < self.entries.len() && self.entries[lo].0 == *k;
        proof {
            if found {
                lemma_entry_in_map(self.entries@, lo as int);
            } else if self@.contains_key(*k) {
                lemma_key_has_entry(self.entries@, *k);
                let j = position(self.entries@, *k);
                if lo < j {
                    assert(self.entries@[lo as int].0.precedes(self.entries@[j].0));
                }
            }
        }
        (lo, found)
    }

    /// Whether the map holds `k`.
    pub fn contains(&self, k: &ActorId) -> (r: bool)
        ensures
            r == self@.contains_key(*k),
    {
        self.locate(k).1
    }

    /// The value held under `k`, if any.
    pub fn get(&self, k: &ActorId) -> (r: Option<V>)
        ensures
            r == (if self@.contains_key(*k) {
                Some(self@[*k])
            } else {
                None
            }),
    {
        let (i, found) = self.locate(k);
        if found {
            proof {
                use_type_invariant(self);
                lemma_entry_in_map(self.entries@, i as int);
            }
            Some(self.entries[i].1)
        } else {
            None
        }
    }

    /// Puts `v` under `k`, in place of what was held there, and returns what
    /// was held there. The entries stay in the order of their keys, and are
    /// one more where `k` is new.
    pub fn insert(&mut self, k: ActorId, v: V) -> (r: Option<V>)
        ensures
            final(self)@ == old(self)@.insert(k, v),
            ordered(old(self).pairs()),
            ordered(final(self).pairs()),
            final(self).pairs().len() == old(self).pairs().len() + (if old(self)@.contains_key(
                k,
            ) {
                0int
            } else {
                1int
            }),
            r == (if old(self)@.contains_key(k) {
                Some(old(self)@[k])
            } else {
                None
            }),
    {
        proof {
            use_type_invariant(&*self);
        }
        let (i, found) = self.locate(&k);
        let ghost before = self.entries@;
        let mut entries: Vec<(ActorId, V)> = Vec::new();
        core::mem::swap(&mut entries, &mut self.entries);
        let r = if found {
            let previous = entries[i].1;
            proof {
                lemma_entry_in_map(before, i as int);
            }
            entries.set(i, (k, v));
            proof {
                lemma_replace(before, i as int, v);
            }
            Some(previous)
        } else {
            entries.insert(i, (k, v));
            proof {
                lemma_insert(before, i as int, k, v);
            }
            None
        };
        self.entries = entries;
        r
    }

    /// Takes `k` out of the map and returns what was held under it. The
    /// entries stay in the order of their keys, and are one fewer where `k`
    /// was held.
    pub fn remove(&mut self, k: &ActorId) -> (r: Option<V>)
        ensures
            final(self)@ == old(self)@.remove(*k),
            ordered(old(self).pairs()),
            ordered(final(self).pairs()),
            final(self).pairs().len() == old(self).pairs().len() - (if old(self)@.contains_key(
                *k,
            ) {
                1int
            } else {
                0int
            }),
            r == (if old(self)@.contains_key(*k) {
                Some(old(self)@[*k])
            } else {
                None
            }),
    {
        proof {
            use_type_invariant(&*self);
        }
        let (i, found) = self.locate(k);
        let ghost before = self.entries@;
        if found {
            let mut entries: Vec<(ActorId, V)> = Vec::new();
            core::mem::swap(&mut entries, &mut self.entries);
            let taken = entries.remove(i);
            proof {
                lemma_entry_in_map(before, i as int);
                lemma_remove(before, i as int);
            }
            self.entries = entries;
            Some(taken.1)
        } else {
            assert(self@ =~= old(self)@.remove(*k));
            None
        }
    }
}

/// Replacing the value of the entry at `i` keeps the order and updates the
/// map under that entry's key.
proof fn lemma_replace<V>(s: Seq<(ActorId, V)>, i: int, v: V)
    requires
        ordered(s),
        0 <= i < s.len(),
    ensures
        ordered(s.update(i, (s[i].0, v))),
        as_map(s.update(i, (s[i].0, v))) == as_map(s).insert(s[i].0, v),
{
    let k = s[i].0;
    let t = s.update(i, (k, v));
    assert forall|a: int, b: int| 0 <= a < b < t.len() implies (#[trigger] t[a]).0.precedes(
        (#[trigger] t[b]).0,
    ) by {
        assert(s[a].0.precedes(s[b].0));
    }
    assert forall|q: ActorId| #[trigger] as_map(t).contains_key(q) == as_map(s).insert(
        k,
        v,
    ).contains_key(q) by {
        if has_key(t, q) {
            let j = position(t, q);
            assert(s[j].0 == q);
        }
        if has_key(s, q) {
            let j = position(s, q);
            assert(t[j].0 == q);
        }
        if q == k {
            assert(t[i].0 == q);
        }
    }
    assert forall|q: ActorId| as_map(t).contains_key(q) implies #[trigger] as_map(t)[q]
        == as_map(s).insert(k, v)[q] by {
        let j = position(t, q);
        assert(0 <= j < t.len() && t[j].0 == q);
        lemma_entry_in_map(t, j);
        if q != k {
            assert(j != i);
            lemma_entry_in_map(s, j);
        } else {
            lemma_entry_in_map(t, i);
        }
    }
    assert(as_map(t) =~= as_map(s).insert(k, v));
}

/// Putting a new key at the place where it belongs keeps the order and adds
/// the key to the map.
proof fn lemma_insert<V>(s: Seq<(ActorId, V)>, i: int, k: ActorId, v: V)
    requires
        ordered(s),
        0 <= i <= s.len(),
        forall|a: int| 0 <= a < i ==> (#[trigger] s[a]).0.precedes(k),
        forall|a: int| i <= a < s.len() ==> !(#[trigger] s[a]).0.precedes(k),
        !(i < s.len() && s[i].0 == k),
    ensures
        ordered(s.insert(i, (k, v))),
        as_map(s.insert(i, (k, v))) == as_map(s).insert(k, v),
{
    let t = s.insert(i, (k, v));
    assert forall|a: int| i <= a < s.len() implies k.precedes((#[trigger] s[a]).0) by {
        if i < a {
            assert(s[i].0.precedes(s[a].0));
        }
    }
    assert forall|a: int, b: int| 0 <= a < b < t.len() implies (#[trigger] t[a]).0.precedes(
        (#[trigger] t[b]).0,
    ) by {
        if b < i {
            assert(s[a].0.precedes(s[b].0));
        } else if b == i {
            assert(s[a].0.precedes(k));
        } else if a < i {
            assert(s[a].0.precedes(s[b - 1].0));
        } else if a == i {
            assert(k.precedes(s[b - 1].0));
        } else {
            assert(s[a - 1].0.precedes(s[b - 1].0));
        }
    }
    assert forall|q: ActorId| #[trigger] as_map(t).contains_key(q) == as_map(s).insert(
        k,
        v,
    ).contains_key(q) by {
        if has_key(t, q) {
            let j = position(t, q);
            if j < i {
                assert(s[j].0 == q);
            } else if j > i {
                assert(s[j - 1].0 == q);
            }
        }
        if has_key(s, q) {
            let j = position(s, q);
            if j < i {
                assert(t[j].0 == q);
            } else {
                assert(t[j + 1].0 == q);
            }
        }
        if q == k {
            assert(t[i].0 == q);
        }
    }
    assert forall|q: ActorId| as_map(t).contains_key(q) implies #[trigger] as_map(t)[q]
        == as_map(s).insert(k, v)[q] by {
        let j = position(t, q);
        assert(0 <= j < t.len() && t[j].0 == q);
        lemma_entry_in_map(t, j);
        if j < i {
            lemma_entry_in_map(s, j);
        } else if j > i {
            lemma_entry_in_map(s, j - 1);
        }
    }
    assert(as_map(t) =~= as_map(s).insert(k, v));
}

/// Taking the entry at `i` out keeps the order and removes its key from the
/// map.
proof fn lemma_remove<V>(s: Seq<(ActorId, V)>, i: int)
    requires
        ordered(s),
        0 <= i < s.len(),
    ensures
        ordered(s.remove(i)),
        as_map(s.remove(i)) == as_map(s).remove(s[i].0),
{
    let k = s[i].0;
    let t = s.remove(i);
    assert forall|a: int, b: int| 0 <= a < b < t.len() implies (#[trigger] t[a]).0.precedes(
        (#[trigger] t[b]).0,
    ) by {
        let a0 = if a < i { a } else { a + 1 };
        let b0 = if b < i { b } else { b + 1 };
        assert(s[a0].0.precedes(s[b0].0));
    }
    assert forall|q: ActorId| #[trigger] as_map(t).contains_key(q) == as_map(s).remove(
        k,
    ).contains_key(q) by {
        if has_key(t, q) {
            let j = position(t, q);
            let j0 = if j < i { j } else { j + 1 };
            assert(s[j0].0 == q);
            if j0 < i {
                assert(s[j0].0.precedes(s[i].0));
            } else {
                assert(s[i].0.precedes(s[j0].0));
            }
        }
        if has_key(s, q) && q != k {
            let j = position(s, q);
            if j < i {
                assert(t[j].0 == q);
            } else {
                assert(t[j - 1].0 == q);
            }
        }
    }
    assert forall|q: ActorId| as_map(t).contains_key(q) implies #[trigger] as_map(t)[q]
        == as_map(s).remove(k)[q] by {
        let j = position(t, q);
        assert(0 <= j < t.len() && t[j].0 == q);
        lemma_entry_in_map(t, j);
        let j0 = if j < i { j } else { j + 1 };
        lemma_entry_in_map(s, j0);
    }
    assert(as_map(t) =~= as_map(s).remove(k));
}

/// Ordered entries are fixed by the map that they stand for: two ordered
/// sequences of entries that stand for the same map are the same sequence.
pub proof fn lemma_pairs_determined<V>(a: Seq<(ActorId, V)>, b: Seq<(ActorId, V)>)
    requires
        ordered(a),
        ordered(b),
        as_map(a) == as_map(b),
    ensures
        a == b,
    decreases a.len(),
{
    if a.len() == 0 {
        if b.len() > 0 {
            lemma_entry_in_map(b, 0);
            assert(has_key(a, b[0].0));
        }
        assert(a =~= b);
    } else {
        let la = a.len() - 1;
        lemma_entry_in_map(a, la);
        lemma_key_has_entry(b, a[la].0);
        let lb = b.len() - 1;
        lemma_entry_in_map(b, lb);
        lemma_key_has_entry(a, b[lb].0);
        let ja = position(a, b[lb].0);
        let jb = position(b, a[la].0);
        if jb < lb {
            assert(b[jb].0.precedes(b[lb].0));
        }
        if ja < la {
            assert(a[ja].0.precedes(a[la].0));
        }
        assert(a[la].0 == b[lb].0);
        assert(a[la] == b[lb]);
        lemma_remove(a, la);
        lemma_remove(b, lb);
        assert(a.remove(la) =~= a.drop_last());
        assert(b.remove(lb) =~= b.drop_last());
        lemma_pairs_determined(a.drop_last(), b.drop_last());
        assert(a =~= a.drop_last().push(a[la]));
        assert(b =~= b.drop_last().push(b[lb]));
    }
}

/// The first `i + 1` entries of ordered entries stand for the map of the
/// first `i`, with the entry at `i` added under a key that this map lacks.
pub proof fn lemma_take_next<V>(s: Seq<(ActorId, V)>, i: int)
    requires
        ordered(s),
        0 <= i < s.len(),
    ensures
        ordered(s.take(i)),
        !as_map(s.take(i)).contains_key(s[i].0),
        as_map(s.take(i + 1)) == as_map(s.take(i)).insert(s[i].0, s[i].1),
{
    let head = s.take(i);
    assert forall|a: int, b: int| 0 <= a < b < head.len() implies (#[trigger] head[a]).0.precedes(
        (#[trigger] head[b]).0,
    ) by {
        assert(s[a].0.precedes(s[b].0));
    }
    if has_key(head, s[i].0) {
        let j = position(head, s[i].0);
        assert(s[j].0.precedes(s[i].0));
    }
    assert forall|a: int| 0 <= a < i implies (#[trigger] head[a]).0.precedes(s[i].0) by {
        assert(s[a].0.precedes(s[i].0));
    }
    lemma_insert(head, i, s[i].0, s[i].1);
    assert(head.insert(i, s[i]) =~= s.take(i + 1));
}

/// No entries stand for the empty map, and all the entries for the whole.
pub proof fn lemma_take_ends<V>(s: Seq<(ActorId, V)>)
    ensures
        as_map(s.take(0)) == Map::<ActorId, V>::empty(),
        s.take(s.len() as int) == s,
{
    assert(as_map(s.take(0)) =~= Map::<ActorId, V>::empty());
    assert(s.take(s.len() as int) =~= s);
}

} // verus!
