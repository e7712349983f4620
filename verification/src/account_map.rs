//! A map from account names to per-account records: the persistent
//! per-user state of every contract (vaults, balances, vesting schedules).
use vstd::prelude::*;

verus! {

/// Map keyed by account name. Its view is a `Map` from the characters of the
/// account name to the stored value.
pub struct AccountMap<V: View> {
    entries: Vec<(String, V)>,
    contents: Ghost<Map<Seq<char>, V::V>>,
}

impl<V: View> View for AccountMap<V> {
    type V = Map<Seq<char>, V::V>;

    closed spec fn view(&self) -> Map<Seq<char>, V::V> {
        self.contents@
    }
}

impl<V: View> AccountMap<V> {
    /// Each name occurs once, and the entries are exactly the view.
    pub closed spec fn wf(&self) -> bool {
        &&& forall|i: int, j: int|
            0 <= i < j < self.entries@.len() ==> #[trigger] self.entries@[i].0@
                != #[trigger] self.entries@[j].0@
        &&& forall|i: int|
            0 <= i < self.entries@.len() ==> {
                &&& self.contents@.contains_key(#[trigger] self.entries@[i].0@)
                &&& self.contents@[self.entries@[i].0@] == self.entries@[i].1@
            }
        &&& forall|k: Seq<char>|
            #[trigger] self.contents@.contains_key(k) ==> exists|i: int|
                0 <= i < self.entries@.len() && #[trigger] self.entries@[i].0@ == k
    }

    /// An empty map.
    pub fn new() -> (r: AccountMap<V>)
        ensures
            r.wf(),
            r@ == Map::<Seq<char>, V::V>::empty(),
    {
        AccountMap { entries: Vec::new(), contents: Ghost(Map::empty()) }
    }

    /// Position of `k` in the entries, if present.
    fn find(&self, k: &String) -> (r: Option<usize>)
        requires
            self.wf(),
        ensures
            match r {
                Some(i) => i < self.entries@.len() && self.entries@[i as int].0@ == k@,
                None => !self@.contains_key(k@),
            },
    {
        let mut i: usize = 0;
        while i < self.entries.len()
            invariant
                self.wf(),
                i <= self.entries@.len(),
                forall|j: int| 0 <= j < i ==> #[trigger] self.entries@[j].0@ != k@,
            decreases self.entries@.len() - i,
        {
            if self.entries[i].0 == *k {
                return Some(i);
            }
            i = i + 1;
        }
        None
    }

    /// Whether `k` has an entry.
    pub fn contains_key(&self, k: &String) -> (r: bool)
        requires
            self.wf(),
        ensures
            r == self@.contains_key(k@),
    {
        match self.find(k) {
            Some(_) => true,
            None => false,
        }
    }

    /// The entry of `k`, if any.
    pub fn get(&self, k: &String) -> (r: Option<&V>)
        requires
            self.wf(),
        ensures
            match r {
                Some(v) => self@.contains_key(k@) && v@ == self@[k@],
                None => !self@.contains_key(k@),
            },
    {
        match self.find(k) {
            Some(i) => Some(&self.entries[i].1),
            None => None,
        }
    }

    /// Sets the entry of `k` to `v`.
    pub fn insert(&mut self, k: String, v: V)
        requires
            old(self).wf(),
        ensures
            final(self).wf(),
            final(self)@ == old(self)@.insert(k@, v@),
    {
        let ghost kv = k@;
        let ghost new_map = self.contents@.insert(kv, v@);
        match self.find(&k) {
            Some(i) => {
                let ghost old_entries = self.entries@;
                self.entries.set(i, (k, v));
                self.contents = Ghost(new_map);
                assert forall|j: int|
                    0 <= j < self.entries@.len() implies {
                    &&& self.contents@.contains_key(#[trigger] self.entries@[j].0@)
                    &&& self.contents@[self.entries@[j].0@] == self.entries@[j].1@
                } by {
                    if j != i {
                        assert(old_entries[j].0@ != kv) by {
                            if j < i {
                                assert(old_entries[j].0@ != old_entries[i as int].0@);
                            } else {
                                assert(old_entries[i as int].0@ != old_entries[j].0@);
                            }
                        }
                    }
                }
                assert forall|key: Seq<char>|
                    #[trigger] self.contents@.contains_key(key) implies exists|j: int|
                        0 <= j < self.entries@.len() && #[trigger] self.entries@[j].0@ == key by {
                    if key == kv {
                        assert(self.entries@[i as int].0@ == key);
                    } else {
                        assert(old(self).contents@.contains_key(key));
                        let j = choose|j: int|
                            0 <= j < old_entries.len() && #[trigger] old_entries[j].0@ == key;
                        assert(self.entries@[j].0@ == key);
                    }
                }
            },
            None => {
                let ghost old_entries = self.entries@;
                self.entries.push((k, v));
                self.contents = Ghost(new_map);
                let ghost n = old_entries.len() as int;
                assert forall|a: int, b: int|
                    0 <= a < b < self.entries@.len() implies #[trigger] self.entries@[a].0@
                    != #[trigger] self.entries@[b].0@ by {
                    if b == n {
                        assert(old(self).contents@.contains_key(old_entries[a].0@));
                    }
                }
                assert forall|key: Seq<char>|
                    #[trigger] self.contents@.contains_key(key) implies exists|j: int|
                        0 <= j < self.entries@.len() && #[trigger] self.entries@[j].0@ == key by {
                    if key == kv {
                        assert(self.entries@[n].0@ == key);
                    } else {
                        assert(old(self).contents@.contains_key(key));
                        let j = choose|j: int|
                            0 <= j < old_entries.len() && #[trigger] old_entries[j].0@ == key;
                        assert(self.entries@[j].0@ == key);
                    }
                }
                assert forall|j: int|
                    0 <= j < self.entries@.len() implies {
                    &&& self.contents@.contains_key(#[trigger] self.entries@[j].0@)
                    &&& self.contents@[self.entries@[j].0@] == self.entries@[j].1@
                } by {
                    if j < n {
                        assert(old(self).contents@.contains_key(old_entries[j].0@));
                    }
                }
            },
        }
    }

    /// Removes the entry of `k` and returns it.
    pub fn remove(&mut self, k: &String) -> (r: Option<V>)
        requires
            old(self).wf(),
        ensures
            final(self).wf(),
            final(self)@ == old(self)@.remove(k@),
            match r {
                Some(v) => old(self)@.contains_key(k@) && v@ == old(self)@[k@],
                None => !old(self)@.contains_key(k@),
            },
    {
        match self.find(k) {
            None => {
                assert(self.contents@.remove(k@) =~= self.contents@);
                None
            },
            Some(i) => {
                let ghost old_entries = self.entries@;
                let ghost kv = k@;
                let (_, v) = self.entries.remove(i);
                self.contents = Ghost(self.contents@.remove(kv));
                assert forall|a: int, b: int|
                    0 <= a < b < self.entries@.len() implies #[trigger] self.entries@[a].0@
                    != #[trigger] self.entries@[b].0@ by {
                    let oa = if a < i { a } else { a + 1 };
                    let ob = if b < i { b } else { b + 1 };
                    assert(self.entries@[a] == old_entries[oa]);
                    assert(self.entries@[b] == old_entries[ob]);
                    assert(old_entries[oa].0@ != old_entries[ob].0@);
                }
                assert forall|j: int|
                    0 <= j < self.entries@.len() implies {
                    &&& self.contents@.contains_key(#[trigger] self.entries@[j].0@)
                    &&& self.contents@[self.entries@[j].0@] == self.entries@[j].1@
                } by {
                    let oj = if j < i { j } else { j + 1 };
                    assert(self.entries@[j] == old_entries[oj]);
                    if oj < i {
                        assert(old_entries[oj].0@ != old_entries[i as int].0@);
                    } else {
                        assert(old_entries[i as int].0@ != old_entries[oj].0@);
                    }
                }
                assert forall|key: Seq<char>|
                    #[trigger] self.contents@.contains_key(key) implies exists|j: int|
                        0 <= j < self.entries@.len() && #[trigger] self.entries@[j].0@ == key by {
                    assert(old(self).contents@.contains_key(key));
                    let oj = choose|j: int|
                        0 <= j < old_entries.len() && #[trigger] old_entries[j].0@ == key;
                    assert(oj != i);
                    let j = if oj < i { oj } else { oj - 1 };
                    assert(self.entries@[j] == old_entries[oj]);
                }
                Some(v)
            },
        }
    }
}

} // verus!
