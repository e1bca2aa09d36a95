//! A finite map keyed by strings, absent keys reading as "not there".

use vstd::prelude::*;

verus! {

/// Map from string keys to values, kept as a list of entries with distinct keys
/// in order of first insertion.
pub struct StorageMap<V> {
    entries: Vec<(String, V)>,
    contents: Ghost<Map<Seq<char>, V>>,
}

impl<V> View for StorageMap<V> {
    type V = Map<Seq<char>, V>;

    closed spec fn view(&self) -> Map<Seq<char>, V> {
        self.contents@
    }
}

impl<V> StorageMap<V> {
    /// Keys of the entries are distinct, and the entries hold exactly the map.
    pub closed spec fn wf(&self) -> bool {
        &&& forall|i: int, j: int|
            0 <= i < j < self.entries.len() ==> #[trigger] self.entries@[i].0@
                != #[trigger] self.entries@[j].0@
        &&& forall|i: int|
            0 <= i < self.entries.len() ==> {
                let (k, v) = #[trigger] self.entries@[i];
                &&& self.contents@.contains_key(k@)
                &&& self.contents@[k@] == v
            }
        &&& forall|k: Seq<char>|
            #[trigger] self.contents@.contains_key(k) ==> exists|i: int|
                0 <= i < self.entries.len() && #[trigger] self.entries@[i].0@ == k
    }

    /// An empty map.
    pub fn new() -> (m: Self)
        ensures
            m.wf(),
            m@ == Map::<Seq<char>, V>::empty(),
    {
        StorageMap { entries: Vec::new(), contents: Ghost(Map::empty()) }
    }

    /// Position of `key` among the entries, if it is there.
    fn position(&self, key: &String) -> (r: Option<usize>)
        requires
            self.wf(),
        ensures
            match r {
                Some(i) => i < self.entries.len() && self.entries@[i as int].0@ == key@,
                None => !self@.contains_key(key@),
            },
    {
        let mut i: usize = 0;
        while i < self.entries.len()
            invariant
                i <= self.entries.len(),
                forall|j: int| 0 <= j < i ==> #[trigger] self.entries@[j].0@ != key@,
            decreases self.entries.len() - i,
        {
            if self.entries[i].0 == *key {
                return Some(i);
            }
            i = i + 1;
        }
        None
    }

    /// The value stored under `key`, if any.
    pub fn get(&self, key: &String) -> (r: Option<&V>)
        requires
            self.wf(),
        ensures
            match r {
                Some(v) => self@.contains_key(key@) && *v == self@[key@],
                None => !self@.contains_key(key@),
            },
    {
        match self.position(key) {
            Some(i) => Some(&self.entries[i].1),
            None => None,
        }
    }

    /// Whether a value is stored under `key`.
    pub fn contains_key(&self, key: &String) -> (r: bool)
        requires
            self.wf(),
        ensures
            r == self@.contains_key(key@),
    {
        self.position(key).is_some()
    }

    /// Stores `value` under `key`, replacing what was there.
    pub fn insert(&mut self, key: String, value: V)
        requires
            old(self).wf(),
        ensures
            final(self).wf(),
            final(self)@ == old(self)@.insert(key@, value),
    {
        let ghost old_entries = self.entries@;
        let ghost new_contents = self.contents@.insert(key@, value);
        let ghost k = key@;
        let ghost mut at: int = 0;
        match self.position(&key) {
            Some(i) => {
                self.entries.set(i, (key, value));
                proof {
                    at = i as int;
                    assert forall|j: int| 0 <= j < self.entries.len() implies #[trigger] self.entries@[j].0@
                        == old_entries[j].0@ by {}
                }
            },
            None => {
                self.entries.push((key, value));
                proof {
                    assert forall|j: int| 0 <= j < old_entries.len() implies old_entries[j].0@ != k by {
                        let e = old_entries[j];
                        assert(self.contents@.contains_key(e.0@));
                    }
                    at = old_entries.len() as int;
                    assert(self.entries@[at].0@ == k);
                }
            },
        }
        self.contents = Ghost(new_contents);
        proof {
            assert forall|q: Seq<char>| #[trigger] new_contents.contains_key(q) implies exists|j: int|
                0 <= j < self.entries.len() && #[trigger] self.entries@[j].0@ == q by {
                if q != k {
                    let j = choose|j: int| 0 <= j < old_entries.len() && old_entries[j].0@ == q;
                    assert(self.entries@[j].0@ == old_entries[j].0@);
                } else {
                    assert(self.entries@[at].0@ == q);
                }
            }
        }
    }

    /// Removes whatever is stored under `key`.
    pub fn remove(&mut self, key: &String)
        requires
            old(self).wf(),
        ensures
            final(self).wf(),
            final(self)@ == old(self)@.remove(key@),
    {
        let ghost old_entries = self.entries@;
        let ghost new_contents = self.contents@.remove(key@);
        let ghost k = key@;
        match self.position(key) {
            Some(i) => {
                self.entries.remove(i);
                self.contents = Ghost(new_contents);
                proof {
                    assert forall|j: int| 0 <= j < self.entries.len() implies #[trigger] self.entries@[j]
                        == old_entries[if j < i { j } else { j + 1 }] by {}
                    assert forall|j1: int, j2: int|
                        0 <= j1 < j2 < self.entries.len() implies #[trigger] self.entries@[j1].0@
                        != #[trigger] self.entries@[j2].0@ by {
                        let a = if j1 < i { j1 } else { j1 + 1 };
                        let b = if j2 < i { j2 } else { j2 + 1 };
                        assert(old_entries[a].0@ != old_entries[b].0@);
                    }
                    assert forall|j: int| 0 <= j < self.entries.len() implies #[trigger] self.entries@[j].0@
                        != k by {
                        let jj = if j < i { j } else { j + 1 };
                        assert(old_entries[jj].0@ != old_entries[i as int].0@);
                    }
                    assert forall|q: Seq<char>| #[trigger] new_contents.contains_key(q) implies exists|j: int|
                        0 <= j < self.entries.len() && #[trigger] self.entries@[j].0@ == q by {
                        let j = choose|j: int| 0 <= j < old_entries.len() && old_entries[j].0@ == q;
                        assert(j != i);
                        let jj = if j < i { j } else { j - 1 };
                        assert(self.entries@[jj] == old_entries[j]);
                    }
                }
            },
            None => {
                assert(new_contents =~= self.contents@);
                self.contents = Ghost(new_contents);
            },
        }
    }
}

} // verus!
