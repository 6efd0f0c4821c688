//! The pool of memory slot numbers that were in use and are free again.

use vstd::prelude::*;

verus! {

/// The number of a memory slot.
pub type MemSlot = u32;

/// Whether `m` is the least member of `s`.
pub open spec fn is_least(s: Set<MemSlot>, m: MemSlot) -> bool {
    s.contains(m) && forall|x: MemSlot| s.contains(x) ==> m <= x
}

spec fn strictly_descending(s: Seq<MemSlot>) -> bool {
    forall|i: int, j: int| 0 <= i < j < s.len() ==> s[i] > s[j]
}

/// A set of freed slot numbers that hands its least member out first.
#[derive(Debug)]
pub struct MemSlotGaps {
    slots: Vec<MemSlot>,
}

impl View for MemSlotGaps {
    type V = Set<MemSlot>;

    closed spec fn view(&self) -> Set<MemSlot> {
        self.slots@.to_set()
    }
}

impl MemSlotGaps {
    #[verifier::type_invariant]
    spec fn descending(&self) -> bool {
        strictly_descending(self.slots@)
    }

    /// The pool holds finitely many numbers.
    pub proof fn lemma_finite(&self)
        ensures
            self@.finite(),
    {
        vstd::seq_lib::seq_to_set_is_finite(self.slots@);
    }

    /// An empty pool.
    pub fn new() -> (gaps: MemSlotGaps)
        ensures
            gaps@ == Set::<MemSlot>::empty(),
    {
        let gaps = MemSlotGaps { slots: Vec::new() };
        assert(gaps.slots@.to_set() =~= Set::<MemSlot>::empty());
        gaps
    }

    /// Number of slot numbers in the pool.
    pub fn len(&self) -> (n: usize)
        ensures
            n == self@.len(),
    {
        proof {
            use_type_invariant(self);
            assert(self.slots@.no_duplicates());
            self.slots@.unique_seq_to_set();
        }
        self.slots.len()
    }

    /// The least slot number in the pool, which stays there.
    pub fn peek(&self) -> (r: Option<MemSlot>)
        ensures
            match r {
                Some(m) => is_least(self@, m),
                None => self@ == Set::<MemSlot>::empty(),
            },
    {
        proof {
            use_type_invariant(self);
        }
        let n: usize = self.slots.len();
        if n == 0 {
            assert(self.slots@.to_set() =~= Set::<MemSlot>::empty());
            None
        } else {
            let m: MemSlot = self.slots[n - 1];
            assert(self.slots@.to_set().contains(m)) by {
                assert(self.slots@[n - 1] == m);
            }
            Some(m)
        }
    }

    /// Takes the least slot number out of the pool.
    pub fn pop(&mut self) -> (r: Option<MemSlot>)
        ensures
            match r {
                Some(m) => is_least(old(self)@, m) && final(self)@ == old(self)@.remove(m),
                None => old(self)@ == Set::<MemSlot>::empty() && final(self)@ == old(self)@,
            },
    {
        proof {
            use_type_invariant(&*self);
        }
        let ghost before = self.slots@;
        let mut slots: Vec<MemSlot> = Vec::new();
        core::mem::swap(&mut self.slots, &mut slots);
        let r: Option<MemSlot> = slots.pop();
        self.slots = slots;
        proof {
            match r {
                Some(m) => {
                    assert(before.last() == m);
                    assert(self.slots@ == before.drop_last());
                    assert(before.to_set().contains(m)) by {
                        assert(before[before.len() - 1] == m);
                    }
                    assert(self.slots@.to_set() =~= before.to_set().remove(m)) by {
                        assert forall|x: MemSlot|
                            self.slots@.to_set().contains(x) <==> before.to_set().remove(
                                m,
                            ).contains(x) by {
                            if self.slots@.to_set().contains(x) {
                                let i = choose|i: int|
                                    0 <= i < self.slots@.len() && self.slots@[i] == x;
                                assert(before[i] == x);
                            }
                            if before.to_set().remove(m).contains(x) {
                                let i = choose|i: int| 0 <= i < before.len() && before[i] == x;
                                assert(i < before.len() - 1);
                                assert(self.slots@[i] == x);
                            }
                        }
                    }
                },
                None => {
                    assert(before.to_set() =~= Set::<MemSlot>::empty());
                },
            }
        }
        r
    }

    /// Puts a slot number into the pool.
    pub fn push(&mut self, slot: MemSlot)
        ensures
            final(self)@ == old(self)@.insert(slot),
    {
        proof {
            use_type_invariant(&*self);
        }
        let ghost before = self.slots@;
        let n: usize = self.slots.len();
        let mut i: usize = 0;
        while i < n && self.slots[i] > slot
            invariant
                i <= n,
                n == self.slots@.len(),
                self.slots@ == before,
                forall|k: int| 0 <= k < i ==> before[k] > slot,
            decreases n - i,
        {
            i += 1;
        }
        if i < n && self.slots[i] == slot {
            assert(before.to_set() =~= before.to_set().insert(slot)) by {
                assert(before[i as int] == slot);
            }
            return;
        }
        let mut slots: Vec<MemSlot> = Vec::new();
        core::mem::swap(&mut self.slots, &mut slots);
        slots.insert(i, slot);
        proof {
            let after = slots@;
            assert forall|a: int, b: int| 0 <= a < b < after.len() implies after[a] > after[b] by {
                if b < i {
                    assert(after[a] == before[a] && after[b] == before[b]);
                } else if b == i {
                    assert(after[a] == before[a]);
                } else if a < i {
                    assert(after[a] == before[a] && after[b] == before[b - 1]);
                } else if a == i {
                    assert(after[b] == before[b - 1]);
                    assert(before[i as int] < slot);
                    if b - 1 > i {
                        assert(before[i as int] > before[b - 1]);
                    }
                } else {
                    assert(after[a] == before[a - 1] && after[b] == before[b - 1]);
                }
            }
        }
        self.slots = slots;
        proof {
            let after = self.slots@;
            assert(after == before.insert(i as int, slot));
            assert(after.to_set() =~= before.to_set().insert(slot)) by {
                assert forall|x: MemSlot|
                    after.to_set().contains(x) <==> before.to_set().insert(slot).contains(
                        x,
                    ) by {
                    if after.to_set().contains(x) {
                        let k = choose|k: int| 0 <= k < after.len() && after[k] == x;
                        if k < i {
                            assert(before[k] == x);
                        } else if k > i {
                            assert(before[k - 1] == x);
                        }
                    }
                    if before.to_set().insert(slot).contains(x) {
                        if x == slot {
                            assert(after[i as int] == x);
                        } else {
                            let k = choose|k: int| 0 <= k < before.len() && before[k] == x;
                            if k < i {
                                assert(after[k] == x);
                            } else {
                                assert(after[k + 1] == x);
                            }
                        }
                    }
                }
            }
        }
    }
}

} // verus!
