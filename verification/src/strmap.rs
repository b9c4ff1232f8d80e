//! A small verified map from document paths (strings) to values, kept as an
//! association list with pairwise distinct keys. The session state store uses
//! it for per-document version counters and diagnostics.

use vstd::prelude::*;

verus! {

/// Mathematical contents of an association list: later pairs win, though with
/// distinct keys the order never matters.
pub open spec fn assoc_map_of<V>(s: Seq<(String, V)>) -> Map<Seq<char>, V>
    decreases s.len(),
{
    if s.len() == 0 {
        Map::empty()
    } else {
        assoc_map_of(s.drop_last()).insert(s.last().0@, s.last().1)
    }
}

/// Map from strings to values of type `V`, with each key held at most once.
pub struct StrMap<V> {
    pairs: Vec<(String, V)>,
}

impl<V> View for StrMap<V> {
    type V = Map<Seq<char>, V>;

    closed spec fn view(&self) -> Map<Seq<char>, V> {
        assoc_map_of(self.pairs@)
    }
}

pub open spec fn distinct_keys<V>(s: Seq<(String, V)>) -> bool {
    forall|i: int, j: int| 0 <= i < j < s.len() ==> s[i].0@ != s[j].0@
}

proof fn lemma_assoc_absent<V>(s: Seq<(String, V)>, k: Seq<char>)
    requires
        forall|i: int| 0 <= i < s.len() ==> s[i].0@ != k,
    ensures
        !assoc_map_of(s).contains_key(k),
    decreases s.len(),
{
    if s.len() > 0 {
        assert(s.last() == s[s.len() - 1]);
        lemma_assoc_absent(s.drop_last(), k);
    }
}

proof fn lemma_assoc_index<V>(s: Seq<(String, V)>, i: int)
    requires
        distinct_keys(s),
        0 <= i < s.len(),
    ensures
        assoc_map_of(s).contains_key(s[i].0@),
        assoc_map_of(s)[s[i].0@] == s[i].1,
    decreases s.len(),
{
    if i < s.len() - 1 {
        lemma_assoc_index(s.drop_last(), i);
        assert(s.drop_last()[i] == s[i]);
        assert(s[i].0@ != s.last().0@);
    }
}

proof fn lemma_assoc_update<V>(s: Seq<(String, V)>, i: int, k: String, v: V)
    requires
        distinct_keys(s),
        0 <= i < s.len(),
        s[i].0@ == k@,
    ensures
        assoc_map_of(s.update(i, (k, v))) == assoc_map_of(s).insert(k@, v),
    decreases s.len(),
{
    let t = s.update(i, (k, v));
    if i == s.len() - 1 {
        assert(t.drop_last() =~= s.drop_last());
        assert(assoc_map_of(t) =~= assoc_map_of(s).insert(k@, v));
    } else {
        lemma_assoc_update(s.drop_last(), i, k, v);
        assert(t.drop_last() =~= s.drop_last().update(i, (k, v)));
        assert(t.last() == s.last());
        // the updated key differs from the last pair's key, so the two
        // inserts commute
        assert(s[i].0@ != s.last().0@);
        assert(assoc_map_of(t) =~= assoc_map_of(s).insert(k@, v));
    }
}

impl<V> StrMap<V> {
    pub closed spec fn wf(self) -> bool {
        distinct_keys(self.pairs@)
    }

    pub fn new() -> (m: Self)
        ensures
            m.wf(),
            m@ == Map::<Seq<char>, V>::empty(),
    {
        StrMap { pairs: Vec::new() }
    }

    /// Borrow the value stored under `k`, if the key is present.
    pub fn get(&self, k: &String) -> (r: Option<&V>)
        requires
            self.wf(),
        ensures
            match r {
                Some(v) => self@.contains_key(k@) && *v == self@[k@],
                None => !self@.contains_key(k@),
            },
    {
        let n = self.pairs.len();
        let mut i: usize = 0;
        while i < n
            invariant
                n == self.pairs.len(),
                i <= n,
                self.wf(),
                forall|j: int| 0 <= j < i ==> self.pairs@[j].0@ != k@,
            decreases n - i,
        {
            if self.pairs[i].0 == *k {
                proof {
                    lemma_assoc_index(self.pairs@, i as int);
                }
                return Some(&self.pairs[i].1);
            }
            i = i + 1;
        }
        proof {
            lemma_assoc_absent(self.pairs@, k@);
        }
        None
    }

    /// Store `v` under `k`, replacing whatever was there.
    pub fn insert(&mut self, k: String, v: V)
        requires
            old(self).wf(),
        ensures
            final(self).wf(),
            final(self)@ == old(self)@.insert(k@, v),
    {
        let n = self.pairs.len();
        let mut i: usize = 0;
        while i < n
            invariant
                n == self.pairs.len(),
                i <= n,
                self.wf(),
                *self == *old(self),
                forall|j: int| 0 <= j < i ==> self.pairs@[j].0@ != k@,
            decreases n - i,
        {
            if self.pairs[i].0 == k {
                proof {
                    lemma_assoc_update(self.pairs@, i as int, k, v);
                }
                self.pairs[i] = (k, v);
                return;
            }
            i = i + 1;
        }
        proof {
            lemma_assoc_absent(self.pairs@, k@);
            assert(self.pairs@.push((k, v)).drop_last() =~= self.pairs@);
        }
        self.pairs.push((k, v));
    }
}

} // verus!
