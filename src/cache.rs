use vstd::prelude::*;

verus! {

/// The map that a list of entries stands for; a later entry of a key wins.
pub open spec fn entries_map<R>(e: Seq<(i32, R)>) -> Map<i32, R>
    decreases e.len(),
{
    if e.len() == 0 {
        Map::empty()
    } else {
        entries_map(e.drop_last()).insert(e.last().0, e.last().1)
    }
}

/// Whether no key occurs twice.
pub open spec fn keys_unique<R>(e: Seq<(i32, R)>) -> bool {
    forall|i: int, j: int|
        0 <= i < e.len() && 0 <= j < e.len() && #[trigger] e[i].0 == #[trigger] e[j].0 ==> i == j
}

proof fn lemma_entries_map<R>(e: Seq<(i32, R)>, k: i32)
    requires
        keys_unique(e),
    ensures
        entries_map(e).contains_key(k) <==> exists|i: int| 0 <= i < e.len() && e[i].0 == k,
        forall|i: int| 0 <= i < e.len() && e[i].0 == k ==> entries_map(e)[k] == e[i].1,
    decreases e.len(),
{
    if e.len() > 0 {
        let init = e.drop_last();
        assert(keys_unique(init)) by {
            assert forall|i: int, j: int|
                0 <= i < init.len() && 0 <= j < init.len() && #[trigger] init[i].0
                    == #[trigger] init[j].0 implies i == j by {
                assert(init[i] == e[i] && init[j] == e[j]);
            }
        }
        lemma_entries_map(init, k);
        if exists|i: int| 0 <= i < init.len() && init[i].0 == k {
            let i = choose|i: int| 0 <= i < init.len() && init[i].0 == k;
            assert(e[i] == init[i]);
        }
        if exists|i: int| 0 <= i < e.len() && e[i].0 == k {
            let i = choose|i: int| 0 <= i < e.len() && e[i].0 == k;
            if i < e.len() - 1 {
                assert(init[i] == e[i]);
            }
        }
        assert forall|i: int| 0 <= i < e.len() && e[i].0 == k implies entries_map(e)[k]
            == e[i].1 by {
            if i < e.len() - 1 {
                assert(init[i] == e[i]);
                assert(e[i].0 == e[e.len() - 1].0 ==> i == e.len() - 1);
            }
        }
    }
}

/// Per-thread backend state, one resource per key, made once and reused.
pub struct ResourceCache<R> {
    entries: Vec<(i32, R)>,
}

impl<R> ResourceCache<R> {
    /// The resources by key.
    pub closed spec fn view(&self) -> Map<i32, R> {
        entries_map(self.entries@)
    }

    /// The representation invariant: no key is held twice.
    pub closed spec fn wf(&self) -> bool {
        keys_unique(self.entries@)
    }

    /// An empty cache.
    pub fn new() -> (r: Self)
        ensures
            r.wf(),
            r.view() == Map::<i32, R>::empty(),
    {
        ResourceCache { entries: Vec::new() }
    }

    fn find(&self, key: i32) -> (r: Option<usize>)
        requires
            self.wf(),
        ensures
            r is None <==> !self.view().contains_key(key),
            r matches Some(i) ==> i < self.entries@.len() && self.entries@[i as int].0 == key
                && self.view()[key] == self.entries@[i as int].1,
    {
        proof {
            lemma_entries_map(self.entries@, key);
        }
        let mut i: usize = 0;
        while i < self.entries.len()
            invariant
                keys_unique(self.entries@),
                self.view().contains_key(key) <==> exists|k: int|
                    0 <= k < self.entries@.len() && self.entries@[k].0 == key,
                i <= self.entries@.len(),
                forall|k: int| 0 <= k < i ==> self.entries@[k].0 != key,
            decreases self.entries@.len() - i,
        {
            if self.entries[i].0 == key {
                proof {
                    lemma_entries_map(self.entries@, key);
                }
                return Some(i);
            }
            i = i + 1;
        }
        None
    }

    /// Whether a resource is held for `key`.
    pub fn contains_key(&self, key: i32) -> (r: bool)
        requires
            self.wf(),
        ensures
            r == self.view().contains_key(key),
    {
        self.find(key).is_some()
    }

    /// The resource held for `key`, borrowed for the duration of a call.
    pub fn get(&self, key: i32) -> (r: Option<&R>)
        requires
            self.wf(),
        ensures
            r is Some <==> self.view().contains_key(key),
            r matches Some(v) ==> *v == self.view()[key],
    {
        match self.find(key) {
            Some(i) => Some(&self.entries[i].1),
            None => None,
        }
    }

    /// Keeps `value` for `key` unless a resource is held for it already.
    pub fn insert(&mut self, key: i32, value: R)
        requires
            old(self).wf(),
        ensures
            final(self).wf(),
            final(self).view() == (if old(self).view().contains_key(key) {
                old(self).view()
            } else {
                old(self).view().insert(key, value)
            }),
    {
        if self.find(key).is_none() {
            let ghost before = self.entries@;
            self.entries.push((key, value));
            proof {
                let e = self.entries@;
                assert(e.drop_last() =~= before);
                assert forall|i: int, j: int|
                    0 <= i < e.len() && 0 <= j < e.len() && #[trigger] e[i].0 == #[trigger] e[j].0
                    implies i == j by {
                    if i < before.len() && j == before.len() {
                        assert(e[i] == before[i]);
                        lemma_entries_map(before, key);
                    }
                    if j < before.len() && i == before.len() {
                        assert(e[j] == before[j]);
                        lemma_entries_map(before, key);
                    }
                    if i < before.len() && j < before.len() {
                        assert(e[i] == before[i] && e[j] == before[j]);
                    }
                }
            }
        }
    }
}

} // verus!
