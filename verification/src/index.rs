//! Finding rows by id: the first row with an id (`Iterator::find`), and the
//! last one (a `HashMap` collected from the rows keeps the last).
use vstd::hash_map::HashMapWithView;
use vstd::prelude::*;

verus! {

broadcast use vstd::std_specs::hash::axiom_i32_obeys_hash_table_key_model;

/// The position of the last of `ids` equal to `k`.
pub open spec fn last_position(ids: Seq<i32>, k: i32) -> Option<int>
    decreases ids.len(),
{
    if ids.len() == 0 {
        None
    } else if ids.last() == k {
        Some(ids.len() - 1)
    } else {
        last_position(ids.drop_last(), k)
    }
}

/// The position of the first of `ids` equal to `k`.
pub open spec fn first_position(ids: Seq<i32>, k: i32) -> Option<int>
    decreases ids.len(),
{
    if ids.len() == 0 {
        None
    } else {
        match first_position(ids.drop_last(), k) {
            Some(p) => Some(p),
            None => if ids.last() == k {
                Some(ids.len() - 1)
            } else {
                None
            },
        }
    }
}

/// What `last_position` finds.
pub proof fn lemma_last_position(ids: Seq<i32>, k: i32)
    ensures
        last_position(ids, k) matches Some(p) ==> 0 <= p < ids.len() && ids[p] == k,
        last_position(ids, k) is None ==> forall|i: int| 0 <= i < ids.len() ==> ids[i] != k,
    decreases ids.len(),
{
    if ids.len() > 0 {
        lemma_last_position(ids.drop_last(), k);
        assert(forall|i: int| 0 <= i < ids.len() - 1 ==> ids.drop_last()[i] == ids[i]);
    }
}

/// What `first_position` finds.
pub proof fn lemma_first_position(ids: Seq<i32>, k: i32)
    ensures
        first_position(ids, k) matches Some(p) ==> 0 <= p < ids.len() && ids[p] == k && forall|i: int| 0 <= i < p ==> ids[i] != k,
        first_position(ids, k) is None ==> forall|i: int| 0 <= i < ids.len() ==> ids[i] != k,
    decreases ids.len(),
{
    if ids.len() > 0 {
        lemma_first_position(ids.drop_last(), k);
        assert(forall|i: int| 0 <= i < ids.len() - 1 ==> ids.drop_last()[i] == ids[i]);
    }
}

/// An index from id to the position of the last row with that id.
pub struct LastIndex {
    m: HashMapWithView<i32, usize>,
    ids: Ghost<Seq<i32>>,
}

impl LastIndex {
    /// The ids that the index was built from.
    pub closed spec fn ids(&self) -> Seq<i32> {
        self.ids@
    }

    pub closed spec fn wf(&self) -> bool {
        &&& forall|k: i32| #[trigger] self.m@.contains_key(k) <==> last_position(self.ids@, k) is Some
        &&& forall|k: i32| #[trigger] self.m@.contains_key(k) ==> last_position(self.ids@, k) == Some(self.m@[k] as int)
    }

    /// Indexes the ids.
    pub fn new(ids: &Vec<i32>) -> (r: LastIndex)
        ensures
            r.wf(),
            r.ids() == ids@,
    {
        let mut m: HashMapWithView<i32, usize> = HashMapWithView::new();
        let mut i: usize = 0;
        while i < ids.len()
            invariant
                i <= ids.len(),
                forall|k: i32| #[trigger] m@.contains_key(k) <==> last_position(ids@.take(i as int), k) is Some,
                forall|k: i32| #[trigger] m@.contains_key(k) ==> last_position(ids@.take(i as int), k) == Some(m@[k] as int),
            decreases ids.len() - i,
        {
            assert(ids@.take(i + 1).drop_last() =~= ids@.take(i as int));
            m.insert(ids[i], i);
            i += 1;
        }
        assert(ids@.take(ids.len() as int) =~= ids@);
        LastIndex { m, ids: Ghost(ids@) }
    }

    /// The position of the last row with id `k`.
    pub fn get(&self, k: i32) -> (r: Option<usize>)
        requires
            self.wf(),
        ensures
            r matches Some(p) ==> last_position(self.ids(), k) == Some(p as int),
            r is None ==> last_position(self.ids(), k) is None,
    {
        match self.m.get(&k) {
            Some(p) => Some(*p),
            None => None,
        }
    }
}

/// The position of the first of `ids` equal to `k` (`Iterator::position`).
pub fn find_first(ids: &Vec<i32>, k: i32) -> (r: Option<usize>)
    ensures
        r matches Some(p) ==> first_position(ids@, k) == Some(p as int),
        r is None ==> first_position(ids@, k) is None,
{
    let mut i: usize = 0;
    while i < ids.len()
        invariant
            i <= ids.len(),
            first_position(ids@.take(i as int), k) is None,
        decreases ids.len() - i,
    {
        assert(ids@.take(i + 1).drop_last() =~= ids@.take(i as int));
        if ids[i] == k {
            proof {
                lemma_first_prefix(ids@, i as int + 1, k);
            }
            return Some(i);
        }
        i += 1;
    }
    assert(ids@.take(ids.len() as int) =~= ids@);
    None
}

/// The position of the first of `ids` that is `Some(k)`.
pub open spec fn first_some_position(ids: Seq<Option<i32>>, k: i32) -> Option<int>
    decreases ids.len(),
{
    if ids.len() == 0 {
        None
    } else {
        match first_some_position(ids.drop_last(), k) {
            Some(p) => Some(p),
            None => if ids.last() == Some(k) {
                Some(ids.len() - 1)
            } else {
                None
            },
        }
    }
}

/// Scanning `ids` with `unwrap` for `k` (`find(|x| x.unwrap() == k).expect(..)`)
/// neither panics nor fails: it reaches a `Some(k)` before any `None`.
pub open spec fn scan_finds(ids: Seq<Option<i32>>, k: i32) -> bool {
    &&& first_some_position(ids, k) is Some
    &&& forall|j: int| 0 <= j < first_some_position(ids, k)->0 ==> (#[trigger] ids[j]) is Some
}

/// What `first_some_position` finds.
pub proof fn lemma_first_some_position(ids: Seq<Option<i32>>, k: i32)
    ensures
        first_some_position(ids, k) matches Some(p) ==> 0 <= p < ids.len() && ids[p] == Some(k) && forall|i: int| 0 <= i < p ==> ids[i] != Some(k),
        first_some_position(ids, k) is None ==> forall|i: int| 0 <= i < ids.len() ==> ids[i] != Some(k),
    decreases ids.len(),
{
    if ids.len() > 0 {
        lemma_first_some_position(ids.drop_last(), k);
        assert(forall|i: int| 0 <= i < ids.len() - 1 ==> ids.drop_last()[i] == ids[i]);
    }
}

/// A position of `Some(k)` with none before it is the first.
pub proof fn lemma_first_some_unique(ids: Seq<Option<i32>>, k: i32, p: int)
    requires
        0 <= p < ids.len(),
        ids[p] == Some(k),
        forall|i: int| 0 <= i < p ==> ids[i] != Some(k),
    ensures
        first_some_position(ids, k) == Some(p),
{
    lemma_first_some_position(ids, k);
}

/// The first position found in a prefix is the first position of the whole.
pub proof fn lemma_first_prefix(ids: Seq<i32>, n: int, k: i32)
    requires
        0 <= n <= ids.len(),
        first_position(ids.take(n), k) is Some,
    ensures
        first_position(ids, k) == first_position(ids.take(n), k),
    decreases ids.len() - n,
{
    if n < ids.len() {
        assert(ids.take(n + 1).drop_last() =~= ids.take(n));
        lemma_first_prefix(ids, n + 1, k);
    } else {
        assert(ids.take(n) =~= ids);
    }
}

} // verus!
