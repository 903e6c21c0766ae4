//! The two collection shapes of the document model: an ordered sequence
//! (`Array`, duplicates allowed, source order kept) and a key-unique
//! mapping from text keys (`Dict`, last write wins on duplicate keys).

use vstd::prelude::*;
use crate::scalars::Text;
use crate::strutil::str_eq_str;

verus! {

/// An ordered list of homogeneous elements; duplicates allowed and order
/// is the source order.
#[derive(Debug, PartialEq)]
pub struct Array<T>(pub Vec<T>);

impl<T: View> View for Array<T> {
    type V = Seq<T::V>;

    open spec fn view(&self) -> Seq<T::V> {
        Seq::new(self.0@.len(), |i: int| self.0[i]@)
    }
}

impl<T: View> Array<T> {
    /// Wraps an existing vector of elements.
    pub fn new(value: Vec<T>) -> (r: Array<T>)
        ensures
            r.0 == value,
    {
        Array(value)
    }

    /// Appends one element; nothing is deduplicated and order is kept.
    pub fn push(&mut self, value: T)
        ensures
            final(self).0@ == old(self).0@.push(value),
            final(self)@ == old(self)@.push(value@),
    {
        self.0.push(value);
        assert(self@ =~= old(self)@.push(value@));
    }

    /// The element at `index`, if the index is in range.
    pub fn get(&self, index: usize) -> (r: Option<&T>)
        ensures
            match r {
                Some(x) => index < self@.len() && *x == self.0@[index as int] && x@
                    == self@.index(index as int),
                None => index >= self@.len(),
            },
    {
        if index < self.0.len() {
            Some(&self.0[index])
        } else {
            None
        }
    }

    /// How many elements the array holds.
    pub fn len(&self) -> (r: usize)
        ensures
            r == self@.len(),
    {
        self.0.len()
    }
}

/// The mapping a sequence of key/value pairs denotes when later pairs
/// overwrite earlier ones with the same key.
pub open spec fn pairs_map<T: View>(s: Seq<(Text, T)>) -> Map<Seq<char>, T::V>
    decreases s.len(),
{
    if s.len() == 0 {
        Map::empty()
    } else {
        pairs_map(s.drop_last()).insert(s.last().0@, s.last().1@)
    }
}

/// A key-unique mapping from `Text` keys; inserting an existing key
/// overwrites its value (last write wins).
#[derive(Debug, PartialEq)]
pub struct Dict<T>(pub Vec<(Text, T)>);

impl<T: View> View for Dict<T> {
    type V = Map<Seq<char>, T::V>;

    open spec fn view(&self) -> Map<Seq<char>, T::V> {
        pairs_map(self.0@)
    }
}

/// Well-formedness of a pair sequence: keys are pairwise distinct.
pub open spec fn pairs_unique<T>(s: Seq<(Text, T)>) -> bool {
    forall|i: int, j: int| 0 <= i < j < s.len() ==> s[i].0@ != s[j].0@
}

/// A key absent from every pair is absent from the mapping.
pub proof fn lemma_pairs_map_absent<T: View>(s: Seq<(Text, T)>, k: Seq<char>)
    requires
        forall|j: int| 0 <= j < s.len() ==> s[j].0@ != k,
    ensures
        !pairs_map(s).contains_key(k),
    decreases s.len(),
{
    if s.len() > 0 {
        lemma_pairs_map_absent(s.drop_last(), k);
    }
}

/// A key present in some pair is present in the mapping, and when keys are
/// unique it maps to that pair's value.
pub proof fn lemma_pairs_map_present<T: View>(s: Seq<(Text, T)>, i: int)
    requires
        pairs_unique(s),
        0 <= i < s.len(),
    ensures
        pairs_map(s).contains_key(s[i].0@),
        pairs_map(s)[s[i].0@] == s[i].1@,
    decreases s.len(),
{
    if i == s.len() - 1 {
    } else {
        lemma_pairs_map_present(s.drop_last(), i);
    }
}

/// Removing the unique pair holding key `k` removes exactly `k` from the
/// mapping.
pub proof fn lemma_pairs_map_remove<T: View>(s: Seq<(Text, T)>, i: int)
    requires
        pairs_unique(s),
        0 <= i < s.len(),
    ensures
        pairs_map(s.remove(i)) == pairs_map(s).remove(s[i].0@),
    decreases s.len(),
{
    let k = s[i].0@;
    if i == s.len() - 1 {
        assert(s.remove(i) =~= s.drop_last());
        lemma_pairs_map_absent(s.drop_last(), k);
        assert(pairs_map(s.drop_last()) =~= pairs_map(s.drop_last()).insert(k, s[i].1@).remove(k));
    } else {
        assert(s.remove(i).drop_last() =~= s.drop_last().remove(i));
        assert(s.remove(i).last() == s.last());
        lemma_pairs_map_remove(s.drop_last(), i);
        assert(s.last().0@ != k);
        assert(pairs_map(s.drop_last()).remove(k).insert(s.last().0@, s.last().1@) =~= pairs_map(
            s.drop_last(),
        ).insert(s.last().0@, s.last().1@).remove(k));
    }
}

impl<T: View> Dict<T> {
    /// Keys are pairwise distinct; every `Dict` the library builds keeps
    /// this.
    pub open spec fn wf(&self) -> bool {
        pairs_unique(self.0@)
    }

    /// An empty mapping.
    pub fn new() -> (r: Dict<T>)
        ensures
            r@ == Map::<Seq<char>, T::V>::empty(),
            r.wf(),
            r.0@.len() == 0,
    {
        Dict(Vec::new())
    }

    /// The position of the pair holding `key`, if any.
    fn find_key(&self, key: &str) -> (r: Option<usize>)
        ensures
            match r {
                Some(p) => p < self.0@.len() && self.0@[p as int].0@ == key@ && (forall|j: int|
                    0 <= j < p ==> self.0@[j].0@ != key@),
                None => forall|j: int| 0 <= j < self.0@.len() ==> self.0@[j].0@ != key@,
            },
    {
        let n = self.0.len();
        let mut i: usize = 0;
        while i < n
            invariant
                n == self.0@.len(),
                i <= n,
                forall|j: int| 0 <= j < i ==> self.0@[j].0@ != key@,
            decreases n - i,
        {
            if str_eq_str(self.0[i].0.0.as_str(), key) {
                return Some(i);
            }
            i = i + 1;
        }
        None
    }

    /// Binds `key` to `value`; an existing binding of the same key is
    /// overwritten, so the most recent insertion wins.
    pub fn insert(&mut self, key: Text, value: T)
        requires
            old(self).wf(),
        ensures
            final(self)@ == old(self)@.insert(key@, value@),
            final(self).wf(),
            forall|i: int|
                0 <= i < final(self).0@.len() ==> (#[trigger] final(self).0@[i] == (key, value)
                    || old(self).0@.contains(final(self).0@[i])),
    {
        let ghost s0 = self.0@;
        let found = self.find_key(key.0.as_str());
        match found {
            Some(p) => {
                proof {
                    lemma_pairs_map_remove(s0, p as int);
                }
                self.0.remove(p);
                proof {
                    lemma_pairs_map_absent(self.0@, key@);
                }
                self.0.push((key, value));
                proof {
                    assert(self.0@.drop_last() =~= s0.remove(p as int));
                    assert(pairs_map(s0).remove(key@).insert(key@, value@) =~= pairs_map(
                        s0,
                    ).insert(key@, value@));
                    assert forall|i: int| 0 <= i < self.0@.len() - 1 implies s0.contains(
                        self.0@[i],
                    ) by {
                        if i < p {
                            assert(self.0@[i] == s0[i]);
                        } else {
                            assert(self.0@[i] == s0[i + 1]);
                        }
                    }
                }
            },
            None => {
                self.0.push((key, value));
                proof {
                    assert(self.0@.drop_last() =~= s0);
                    assert(forall|i: int|
                        0 <= i < self.0@.len() - 1 ==> #[trigger] self.0@[i] == s0[i]);
                }
            },
        }
    }

    /// The value bound to `key`, if any.
    pub fn get(&self, key: &str) -> (r: Option<&T>)
        requires
            self.wf(),
        ensures
            match r {
                Some(v) => self@.contains_key(key@) && v@ == self@[key@],
                None => !self@.contains_key(key@),
            },
    {
        let n = self.0.len();
        let mut i: usize = 0;
        while i < n
            invariant
                n == self.0@.len(),
                i <= n,
                self.wf(),
                forall|j: int| 0 <= j < i ==> self.0@[j].0@ != key@,
            decreases n - i,
        {
            if str_eq_str(self.0[i].0.0.as_str(), key) {
                proof {
                    lemma_pairs_map_present(self.0@, i as int);
                }
                let pair = &self.0[i];
                return Some(&pair.1);
            }
            i = i + 1;
        }
        proof {
            lemma_pairs_map_absent(self.0@, key@);
        }
        None
    }

    /// How many bindings the mapping holds.
    pub fn len(&self) -> (r: usize)
        ensures
            r == self.0@.len(),
    {
        self.0.len()
    }
}

/// Law: mapping insertion is idempotent on key identity — after binding a
/// key twice, only the most recently inserted value remains, exactly as if
/// the first binding had never happened.
pub proof fn lemma_insert_last_wins<V>(m: Map<Seq<char>, V>, k: Seq<char>, v1: V, v2: V)
    ensures
        m.insert(k, v1).insert(k, v2) == m.insert(k, v2),
        m.insert(k, v1).insert(k, v2)[k] == v2,
{
    assert(m.insert(k, v1).insert(k, v2) =~= m.insert(k, v2));
}

/// Law: array insertion never deduplicates and preserves source order —
/// appending keeps every earlier element at its position and places the new
/// element last.
pub proof fn lemma_push_keeps_order<V>(s: Seq<V>, v: V)
    ensures
        s.push(v).len() == s.len() + 1,
        forall|i: int| 0 <= i < s.len() ==> s.push(v)[i] == s[i],
        s.push(v)[s.len() as int] == v,
{
}

} // verus!
