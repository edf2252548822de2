//! A map from strings to values, kept as a list of entries.
//!
//! The entry that was written last for a key is the one that counts, so a
//! list of entries read in order means the map that inserting them one after
//! another builds.

use vstd::prelude::*;
use crate::text::str_eq;

verus! {

/// Values that can be copied together with everything they hold.
pub trait DeepClone: DeepView + Sized {
    fn deep_clone(&self) -> (r: Self)
        ensures
            r.deep_view() == self.deep_view(),
    ;
}

impl DeepClone for String {
    fn deep_clone(&self) -> (r: String) {
        self.clone()
    }
}

impl DeepClone for bool {
    fn deep_clone(&self) -> (r: bool) {
        *self
    }
}

impl DeepClone for u64 {
    fn deep_clone(&self) -> (r: u64) {
        *self
    }
}

impl<T: DeepClone> DeepClone for Option<T> {
    fn deep_clone(&self) -> (r: Option<T>) {
        match self {
            Some(v) => Some(v.deep_clone()),
            None => None,
        }
    }
}

impl<T: DeepClone> DeepClone for Vec<T> {
    fn deep_clone(&self) -> (r: Vec<T>) {
        let mut r: Vec<T> = Vec::new();
        let mut i: usize = 0;
        while i < self.len()
            invariant
                i <= self.len(),
                r@.len() == i,
                forall|k: int| 0 <= k < i ==> r@[k].deep_view() == self@[k].deep_view(),
            decreases self.len() - i,
        {
            r.push(self[i].deep_clone());
            i += 1;
        }
        assert(r.deep_view() =~= self.deep_view());
        r
    }
}

/// The map that a list of entries stands for: the entries inserted in order.
pub open spec fn pairs_map<V: DeepView>(s: Seq<(String, V)>) -> Map<Seq<char>, V::V>
    decreases s.len(),
{
    if s.len() == 0 {
        Map::empty()
    } else {
        pairs_map(s.drop_last()).insert(s.last().0@, s.last().1.deep_view())
    }
}

/// Appending an entry inserts it.
pub proof fn lemma_pairs_push<V: DeepView>(s: Seq<(String, V)>, e: (String, V))
    ensures
        pairs_map(s.push(e)) == pairs_map(s).insert(e.0@, e.1.deep_view()),
{
    assert(s.push(e).drop_last() =~= s);
}

/// Entries after index `i` that do not hold `k` do not matter to `k`.
proof fn lemma_pairs_tail<V: DeepView>(s: Seq<(String, V)>, k: Seq<char>, i: int)
    requires
        0 <= i <= s.len(),
        forall|j: int| i <= j < s.len() ==> (#[trigger] s[j]).0@ != k,
    ensures
        pairs_map(s).contains_key(k) == pairs_map(s.take(i)).contains_key(k),
        pairs_map(s).contains_key(k) ==> pairs_map(s)[k] == pairs_map(s.take(i))[k],
    decreases s.len() - i,
{
    if i == s.len() {
        assert(s.take(i) =~= s);
    } else {
        let t = s.drop_last();
        assert(s.last() == s[s.len() - 1]);
        assert forall|j: int| i <= j < t.len() implies (#[trigger] t[j]).0@ != k by {
            assert(t[j] == s[j]);
        }
        lemma_pairs_tail(t, k, i);
        assert(t.take(i) =~= s.take(i));
    }
}

/// The last entry that holds `k` gives the value of `k`.
proof fn lemma_pairs_hit<V: DeepView>(s: Seq<(String, V)>, k: Seq<char>, i: int)
    requires
        0 <= i < s.len(),
        s[i].0@ == k,
        forall|j: int| i < j < s.len() ==> (#[trigger] s[j]).0@ != k,
    ensures
        pairs_map(s).contains_key(k),
        pairs_map(s)[k] == s[i].1.deep_view(),
{
    lemma_pairs_tail(s, k, i + 1);
    let t = s.take(i + 1);
    assert(t.last() == s[i]);
    assert(pairs_map(t).contains_key(k));
}

/// Writing a new value at the last entry that holds `k` inserts it.
proof fn lemma_pairs_update<V: DeepView>(s: Seq<(String, V)>, i: int, e: (String, V))
    requires
        0 <= i < s.len(),
        s[i].0@ == e.0@,
        forall|j: int| i < j < s.len() ==> (#[trigger] s[j]).0@ != e.0@,
    ensures
        pairs_map(s.update(i, e)) == pairs_map(s).insert(e.0@, e.1.deep_view()),
    decreases s.len(),
{
    let u = s.update(i, e);
    if i == s.len() - 1 {
        assert(u.drop_last() =~= s.drop_last());
        assert(pairs_map(u) =~= pairs_map(s).insert(e.0@, e.1.deep_view()));
    } else {
        let t = s.drop_last();
        assert forall|j: int| i < j < t.len() implies (#[trigger] t[j]).0@ != e.0@ by {
            assert(t[j] == s[j]);
        }
        lemma_pairs_update(t, i, e);
        assert(u.drop_last() =~= t.update(i, e));
        assert(u.last() == s.last());
        assert(s.last() == s[s.len() - 1]);
        assert(pairs_map(u) =~= pairs_map(s).insert(e.0@, e.1.deep_view()));
    }
}

/// Taking out an entry that holds `k` changes the map at `k` only.
proof fn lemma_pairs_remove<V: DeepView>(s: Seq<(String, V)>, i: int)
    requires
        0 <= i < s.len(),
    ensures
        pairs_map(s.remove(i)).remove(s[i].0@) == pairs_map(s).remove(s[i].0@),
    decreases s.len(),
{
    let k = s[i].0@;
    if i == s.len() - 1 {
        assert(s.remove(i) =~= s.drop_last());
        assert(pairs_map(s.drop_last()).remove(k) =~= pairs_map(s).remove(k));
    } else {
        let t = s.drop_last();
        let r = s.remove(i);
        assert(t[i] == s[i]);
        lemma_pairs_remove(t, i);
        assert(r.drop_last() =~= t.remove(i));
        assert(r.last() == s.last());
        let a = pairs_map(t.remove(i));
        let b = pairs_map(t);
        assert(a.remove(k) == b.remove(k));
        let lk = s.last().0@;
        let lv = s.last().1.deep_view();
        assert(pairs_map(r) == a.insert(lk, lv));
        assert(pairs_map(s) == b.insert(lk, lv));
        let x1 = a.insert(lk, lv).remove(k);
        let x2 = b.insert(lk, lv).remove(k);
        assert forall|x: Seq<char>|
            #![trigger x1.dom().contains(x)]
            #![trigger x2.dom().contains(x)]
            x1.dom().contains(x) == x2.dom().contains(x) && (x1.dom().contains(x) ==> x1[x]
                == x2[x]) by {
            if x != k && x != lk {
                assert(a.remove(k).contains_key(x) == a.contains_key(x));
                assert(b.remove(k).contains_key(x) == b.contains_key(x));
                if a.contains_key(x) {
                    assert(a.remove(k)[x] == a[x]);
                    assert(b.remove(k)[x] == b[x]);
                }
            }
        }
        assert(x1 =~= x2);
    }
}

/// A list of entries in which no entry holds `k` stands for a map without `k`.
proof fn lemma_pairs_absent<V: DeepView>(s: Seq<(String, V)>, k: Seq<char>)
    requires
        forall|j: int| 0 <= j < s.len() ==> (#[trigger] s[j]).0@ != k,
    ensures
        !pairs_map(s).contains_key(k),
{
    lemma_pairs_tail(s, k, 0);
    assert(s.take(0) =~= Seq::<(String, V)>::empty());
}

/// A map from strings to values.
#[derive(Debug)]
pub struct StrMap<V> {
    entries: Vec<(String, V)>,
}

impl<V: DeepView> View for StrMap<V> {
    type V = Map<Seq<char>, V::V>;

    closed spec fn view(&self) -> Map<Seq<char>, V::V> {
        pairs_map(self.entries@)
    }
}

impl<V: DeepView> DeepView for StrMap<V> {
    type V = Map<Seq<char>, V::V>;

    open spec fn deep_view(&self) -> Map<Seq<char>, V::V> {
        self@
    }
}

impl<V: DeepView> StrMap<V> {
    pub fn new() -> (r: Self)
        ensures
            r@ == Map::<Seq<char>, V::V>::empty(),
    {
        StrMap { entries: Vec::new() }
    }

    /// The map of a list of entries; of two entries with one key the later
    /// counts.
    pub fn from_pairs(pairs: Vec<(String, V)>) -> (r: Self)
        ensures
            r@ == pairs_map(pairs@),
    {
        StrMap { entries: pairs }
    }

    /// Entries that stand for this map.
    pub fn pairs(&self) -> (r: &Vec<(String, V)>)
        ensures
            pairs_map(r@) == self@,
    {
        &self.entries
    }

    pub fn is_empty(&self) -> (r: bool)
        ensures
            r == (self@ == Map::<Seq<char>, V::V>::empty()),
    {
        let r = self.entries.len() == 0;
        proof {
            if !r {
                let s = self.entries@;
                assert(pairs_map(s).contains_key(s.last().0@));
                assert(!Map::<Seq<char>, V::V>::empty().contains_key(s.last().0@));
            }
        }
        r
    }

    /// The index of the last entry that holds `key`.
    fn find(&self, key: &str) -> (r: Option<usize>)
        ensures
            match r {
                Some(i) => {
                    &&& i < self.entries@.len()
                    &&& self.entries@[i as int].0@ == key@
                    &&& forall|j: int|
                        i < j < self.entries@.len() ==> (#[trigger] self.entries@[j]).0@ != key@
                },
                None => forall|j: int|
                    0 <= j < self.entries@.len() ==> (#[trigger] self.entries@[j]).0@ != key@,
            },
    {
        let mut i: usize = self.entries.len();
        while i > 0
            invariant
                i <= self.entries@.len(),
                forall|j: int|
                    i <= j < self.entries@.len() ==> (#[trigger] self.entries@[j]).0@ != key@,
            decreases i,
        {
            i -= 1;
            if str_eq(self.entries[i].0.as_str(), key) {
                return Some(i);
            }
        }
        None
    }

    pub fn contains_key(&self, key: &str) -> (r: bool)
        ensures
            r == self@.contains_key(key@),
    {
        match self.find(key) {
            Some(i) => {
                proof {
                    lemma_pairs_hit(self.entries@, key@, i as int);
                }
                true
            },
            None => {
                proof {
                    lemma_pairs_absent(self.entries@, key@);
                }
                false
            },
        }
    }

    pub fn get(&self, key: &str) -> (r: Option<&V>)
        ensures
            match r {
                Some(v) => self@.contains_key(key@) && v.deep_view() == self@[key@],
                None => !self@.contains_key(key@),
            },
    {
        match self.find(key) {
            Some(i) => {
                proof {
                    lemma_pairs_hit(self.entries@, key@, i as int);
                }
                Some(&self.entries[i].1)
            },
            None => {
                proof {
                    lemma_pairs_absent(self.entries@, key@);
                }
                None
            },
        }
    }

    /// Sets the value of `key`, in place of an earlier one where there is one.
    pub fn insert(&mut self, key: String, value: V)
        ensures
            final(self)@ == old(self)@.insert(key@, value.deep_view()),
    {
        match self.find(key.as_str()) {
            Some(i) => {
                proof {
                    lemma_pairs_update(self.entries@, i as int, (key, value));
                }
                self.entries.set(i, (key, value));
            },
            None => {
                proof {
                    lemma_pairs_push(self.entries@, (key, value));
                }
                self.entries.push((key, value));
            },
        }
    }

    /// Takes `key` out of the map. Returns whether the map held it.
    pub fn remove(&mut self, key: &str) -> (r: bool)
        ensures
            final(self)@ == old(self)@.remove(key@),
            r == old(self)@.contains_key(key@),
    {
        let held = self.contains_key(key);
        let mut i: usize = 0;
        while i < self.entries.len()
            invariant
                i <= self.entries@.len(),
                pairs_map(self.entries@).remove(key@) == old(self)@.remove(key@),
                forall|j: int| 0 <= j < i ==> (#[trigger] self.entries@[j]).0@ != key@,
            decreases self.entries@.len() - i,
        {
            if str_eq(self.entries[i].0.as_str(), key) {
                proof {
                    lemma_pairs_remove(self.entries@, i as int);
                }
                self.entries.remove(i);
            } else {
                i += 1;
            }
        }
        proof {
            lemma_pairs_absent(self.entries@, key@);
            assert(pairs_map(self.entries@).remove(key@) =~= pairs_map(self.entries@));
        }
        held
    }
}

impl<V: DeepClone> StrMap<V> {
    /// Inserts every entry of `other`; where both maps hold a key, the value
    /// of `other` counts.
    pub fn extend_from(&mut self, other: &StrMap<V>)
        ensures
            final(self)@ == old(self)@.union_prefer_right(other@),
    {
        let mut i: usize = 0;
        assert(other.entries@.take(0) =~= Seq::<(String, V)>::empty());
        assert(self@ =~= old(self)@.union_prefer_right(pairs_map(other.entries@.take(0))));
        while i < other.entries.len()
            invariant
                i <= other.entries@.len(),
                self@ == old(self)@.union_prefer_right(pairs_map(other.entries@.take(i as int))),
            decreases other.entries@.len() - i,
        {
            let key = other.entries[i].0.clone();
            let value = other.entries[i].1.deep_clone();
            proof {
                let s = other.entries@;
                assert(s.take(i + 1) =~= s.take(i as int).push(s[i as int]));
                lemma_pairs_push(s.take(i as int), s[i as int]);
                assert(old(self)@.union_prefer_right(pairs_map(s.take(i + 1))) =~= old(
                    self,
                )@.union_prefer_right(pairs_map(s.take(i as int))).insert(
                    key@,
                    value.deep_view(),
                ));
            }
            self.insert(key, value);
            i += 1;
        }
        assert(other.entries@.take(other.entries@.len() as int) =~= other.entries@);
    }
}

impl<V: DeepClone> DeepClone for StrMap<V> {
    fn deep_clone(&self) -> (r: StrMap<V>) {
        let mut r: StrMap<V> = StrMap::new();
        r.extend_from(self);
        assert(r@ =~= self@);
        r
    }
}

} // verus!
