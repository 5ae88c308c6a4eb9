//! The settings that were in force when a device was switched to, by device.

use crate::text::same_text;
use vstd::prelude::*;

verus! {

/// Pointer speed and wheel lines by instance id.
#[derive(Debug)]
pub struct Baselines {
    entries: Vec<(String, (u32, u32))>,
}

impl View for Baselines {
    type V = Map<Seq<char>, (u32, u32)>;

    closed spec fn view(&self) -> Map<Seq<char>, (u32, u32)> {
        Map::new(
            |k: Seq<char>| exists|i: int| self.is_at(k, i),
            |k: Seq<char>| self.entries@[choose|i: int| self.is_at(k, i)].1,
        )
    }
}

impl Baselines {
    spec fn is_at(&self, k: Seq<char>, i: int) -> bool {
        0 <= i < self.entries@.len() && self.entries@[i].0@ == k
    }

    /// No device has two entries.
    pub closed spec fn wf(&self) -> bool {
        forall|i: int, j: int|
            0 <= i < j < self.entries@.len() ==> (#[trigger] self.entries@[i]).0@ != (
            #[trigger] self.entries@[j]).0@
    }

    proof fn lemma_entry(&self, i: int)
        requires
            self.wf(),
            0 <= i < self.entries@.len(),
        ensures
            self@.dom().contains(self.entries@[i].0@),
            self@[self.entries@[i].0@] == self.entries@[i].1,
    {
        let k = self.entries@[i].0@;
        assert(self.is_at(k, i));
        let c = choose|c: int| self.is_at(k, c);
        assert(self.is_at(k, c));
        assert(c == i);
    }

    /// No entries.
    pub fn new() -> (r: Baselines)
        ensures
            r.wf(),
            r@ == Map::<Seq<char>, (u32, u32)>::empty(),
    {
        let r = Baselines { entries: Vec::new() };
        assert(r@ =~= Map::<Seq<char>, (u32, u32)>::empty());
        r
    }

    fn position(&self, id: &str) -> (r: Option<usize>)
        ensures
            r matches Some(i) ==> self.is_at(id@, i as int),
            r is None ==> !self@.dom().contains(id@),
    {
        let mut i: usize = 0;
        while i < self.entries.len()
            invariant
                i <= self.entries@.len(),
                forall|j: int| 0 <= j < i ==> (#[trigger] self.entries@[j]).0@ != id@,
            decreases self.entries@.len() - i,
        {
            if same_text(self.entries[i].0.as_str(), id) {
                return Some(i);
            }
            i = i + 1;
        }
        None
    }

    /// The entry of a device.
    pub fn get(&self, id: &str) -> (r: Option<(u32, u32)>)
        requires
            self.wf(),
        ensures
            r == (if self@.dom().contains(id@) {
                Some(self@[id@])
            } else {
                None
            }),
    {
        match self.position(id) {
            Some(i) => {
                proof {
                    self.lemma_entry(i as int);
                }
                Some(self.entries[i].1)
            },
            None => None,
        }
    }

    /// Whether there is no entry.
    pub fn is_empty(&self) -> (r: bool)
        requires
            self.wf(),
        ensures
            r == (self@ == Map::<Seq<char>, (u32, u32)>::empty()),
    {
        proof {
            if self.entries@.len() > 0 {
                self.lemma_entry(0);
            } else {
                assert(self@ =~= Map::<Seq<char>, (u32, u32)>::empty());
            }
        }
        self.entries.len() == 0
    }

    /// Stores the entry of a device in place of the one it had.
    pub fn insert(&mut self, id: String, value: (u32, u32))
        requires
            old(self).wf(),
        ensures
            final(self).wf(),
            final(self)@ == old(self)@.insert(id@, value),
    {
        self.remove(id.as_str());
        proof {
            assert forall|i: int| 0 <= i < self.entries@.len() implies (
            #[trigger] self.entries@[i]).0@ != id@ by {
                self.lemma_entry(i);
            }
        }
        let ghost before = *self;
        let ghost key = id@;
        self.entries.push((id, value));
        proof {
            let n = before.entries@.len() as int;
            assert(self.is_at(key, n));
            assert forall|k: Seq<char>| #[trigger]
                self@.dom().contains(k) <==> before@.insert(key, value).dom().contains(k) by {
                if before@.dom().contains(k) {
                    let i = choose|i: int| before.is_at(k, i);
                    assert(self.is_at(k, i));
                }
                if self@.dom().contains(k) && k != key {
                    let i = choose|i: int| self.is_at(k, i);
                    assert(before.is_at(k, i));
                }
            }
            assert forall|k: Seq<char>| #[trigger] self@.dom().contains(k) implies self@[k]
                == before@.insert(key, value)[k] by {
                let i = choose|i: int| self.is_at(k, i);
                self.lemma_entry(i);
                if i < n {
                    assert(before.is_at(k, i));
                    before.lemma_entry(i);
                }
            }
            assert(self@ =~= before@.insert(key, value));
            assert(before@.insert(key, value) =~= old(self)@.insert(key, value));
        }
    }

    /// Drops the entry of a device, if it has one.
    pub fn remove(&mut self, id: &str)
        requires
            old(self).wf(),
        ensures
            final(self).wf(),
            final(self)@ == old(self)@.remove(id@),
    {
        let ghost before = *self;
        match self.position(id) {
            Some(i) => {
                self.entries.remove(i);
                proof {
                    let n = before.entries@.len() as int;
                    let p = i as int;
                    assert forall|k: Seq<char>| #[trigger]
                        self@.dom().contains(k) <==> before@.remove(id@).dom().contains(k) by {
                        if before@.remove(id@).dom().contains(k) {
                            let j = choose|j: int| before.is_at(k, j);
                            assert(self.is_at(k, if j < p { j } else { j - 1 }));
                        }
                        if self@.dom().contains(k) {
                            let j = choose|j: int| self.is_at(k, j);
                            assert(before.is_at(k, if j < p { j } else { j + 1 }));
                        }
                    }
                    assert forall|k: Seq<char>| #[trigger] self@.dom().contains(k) implies self@[k]
                        == before@.remove(id@)[k] by {
                        let j = choose|j: int| self.is_at(k, j);
                        self.lemma_entry(j);
                        before.lemma_entry(if j < p { j } else { j + 1 });
                    }
                    assert(self@ =~= before@.remove(id@));
                }
            },
            None => {
                assert(self@ =~= old(self)@.remove(id@));
            },
        }
    }
}

} // verus!
