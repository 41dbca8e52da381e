//! Generational handle table.
//!
//! Both resource managers hand out stable, reusable identifiers for
//! long-lived GPU objects through this table. A handle pairs a slot index
//! with the generation the slot had when the entry was inserted; removing an
//! entry bumps the slot's generation, so a stale handle can never resolve to
//! an entry inserted later into the same slot.
use vstd::prelude::*;

verus! {

/// Index + generation pair naming one entry of a `HandleTable`.
///
/// The generation is odd while the slot is occupied, even while it is
/// vacant; a handle is only ever issued with an odd generation.
#[derive(Clone, Copy, PartialEq, Eq, Structural, Debug, Hash)]
pub struct RawHandle {
    pub index: usize,
    pub generation: u64,
}

struct Slot<V> {
    generation: u64,
    value: Option<V>,
}

/// Slot arena with generation-checked lookup.
pub struct HandleTable<V> {
    slots: Vec<Slot<V>>,
}

/// An occupied slot holds an odd generation, a vacant one an even
/// generation, and an occupied generation can still be bumped without
/// overflow.
spec fn slot_ok<V>(s: Slot<V>) -> bool {
    &&& s.value is Some <==> s.generation % 2 == 1
    &&& s.value is Some ==> s.generation < u64::MAX
}

impl<V> HandleTable<V> {
    pub closed spec fn wf(self) -> bool {
        forall|i: int| 0 <= i < self.slots.len() ==> slot_ok(#[trigger] self.slots[i])
    }

    /// `h` currently resolves to an entry.
    pub closed spec fn live(self, h: RawHandle) -> bool {
        &&& h.index < self.slots.len()
        &&& self.slots[h.index as int].generation == h.generation
        &&& h.generation % 2 == 1
    }

    /// `h` named an entry once, and can never name one again: its slot has
    /// moved past its generation.
    pub closed spec fn dead(self, h: RawHandle) -> bool {
        h.index < self.slots.len() && self.slots[h.index as int].generation > h.generation
    }

    /// The live entries, as a map from handle to value.
    pub closed spec fn contents(self) -> Map<RawHandle, V> {
        Map::new(|h: RawHandle| self.live(h), |h: RawHandle| self.slots[h.index as int].value->0)
    }

    /// A handle cannot be live and dead at once; in particular a removed
    /// handle never resolves again, however the table grows afterwards.
    pub proof fn lemma_dead_not_live(self, h: RawHandle)
        ensures
            self.dead(h) ==> !self.live(h),
    {
    }

    /// The domain of `contents` is exactly the live handles.
    pub proof fn lemma_live_iff_contents(self, h: RawHandle)
        ensures
            self.live(h) <==> self.contents().dom().contains(h),
    {
    }

    pub fn new() -> (r: HandleTable<V>)
        ensures
            r.wf(),
            r.contents() == Map::<RawHandle, V>::empty(),
            forall|h: RawHandle| !r.live(h) && !r.dead(h),
    {
        let r = HandleTable { slots: Vec::new() };
        proof {
            assert(r.contents() =~= Map::<RawHandle, V>::empty());
        }
        r
    }

    /// Insert `v`, returning a fresh handle: one that was neither live nor
    /// dead before, so it aliases no earlier entry.
    pub fn insert(&mut self, v: V) -> (h: RawHandle)
        requires
            old(self).wf(),
        ensures
            final(self).wf(),
            !old(self).live(h),
            !old(self).dead(h),
            final(self).live(h),
            final(self).contents() == old(self).contents().insert(h, v),
            forall|h2: RawHandle| #[trigger] old(self).live(h2) ==> final(self).live(h2),
            forall|h2: RawHandle| #[trigger] old(self).dead(h2) ==> final(self).dead(h2),
    {
        let mut idx: usize = 0;
        let n = self.slots.len();
        while idx < n
            invariant
                n == self.slots.len(),
                idx <= n,
                self.wf(),
                *self == *old(self),
                forall|i: int|
                    0 <= i < idx ==> !(self.slots[i].value is None
                        && #[trigger] self.slots[i].generation < u64::MAX - 1),
            decreases n - idx,
        {
            if self.slots[idx].value.is_none() && self.slots[idx].generation < u64::MAX - 1 {
                let g = self.slots[idx].generation + 1;
                let slot = &mut self.slots[idx];
                slot.generation = g;
                slot.value = Some(v);
                let h = RawHandle { index: idx, generation: g };
                proof {
                    assert(self.contents() =~= old(self).contents().insert(h, v));
                }
                return h;
            }
            idx = idx + 1;
        }
        let h = RawHandle { index: n, generation: 1 };
        self.slots.push(Slot { generation: 1, value: Some(v) });
        proof {
            assert(self.contents() =~= old(self).contents().insert(h, v));
        }
        h
    }

    /// Look up a handle; `Some` exactly while the handle is live.
    pub fn get(&self, h: RawHandle) -> (r: Option<&V>)
        requires
            self.wf(),
        ensures
            r is Some <==> self.live(h),
            r is Some ==> *r->0 == self.contents()[h],
    {
        if h.index < self.slots.len() && self.slots[h.index].generation == h.generation
            && h.generation % 2 == 1 {
            self.slots[h.index].value.as_ref()
        } else {
            None
        }
    }

    /// Replace the value behind a live handle; a stale handle changes
    /// nothing and reports `false`.
    pub fn set(&mut self, h: RawHandle, v: V) -> (ok: bool)
        requires
            old(self).wf(),
        ensures
            final(self).wf(),
            ok == old(self).live(h),
            ok ==> final(self).contents() == old(self).contents().insert(h, v),
            !ok ==> *final(self) == *old(self),
            forall|h2: RawHandle| final(self).live(h2) == old(self).live(h2),
            forall|h2: RawHandle| final(self).dead(h2) == old(self).dead(h2),
    {
        if h.index < self.slots.len() && self.slots[h.index].generation == h.generation
            && h.generation % 2 == 1 {
            let slot = &mut self.slots[h.index];
            slot.value = Some(v);
            proof {
                assert(self.contents() =~= old(self).contents().insert(h, v));
            }
            true
        } else {
            false
        }
    }

    /// Mutable access to the value behind a live handle. Whatever the caller
    /// writes through the reference becomes the entry's value; liveness and
    /// deadness of every handle are untouched.
    pub fn get_mut(&mut self, h: RawHandle) -> (r: Option<&mut V>)
        requires
            old(self).wf(),
        ensures
            final(self).wf(),
            r is Some <==> old(self).live(h),
            r matches Some(v) ==> *v == old(self).contents()[h] && final(self).contents() == old(
                self,
            ).contents().insert(h, *final(v)),
            r is None ==> *final(self) == *old(self),
            forall|h2: RawHandle| final(self).live(h2) == old(self).live(h2),
            forall|h2: RawHandle| final(self).dead(h2) == old(self).dead(h2),
    {
        if h.index < self.slots.len() && self.slots[h.index].generation == h.generation
            && h.generation % 2 == 1 {
            let slot = &mut self.slots[h.index];
            slot.value.as_mut()
        } else {
            None
        }
    }

    /// The currently live handles, in slot order, each exactly once.
    pub fn handles(&self) -> (r: Vec<RawHandle>)
        requires
            self.wf(),
        ensures
            forall|j: int| 0 <= j < r.len() ==> self.live(#[trigger] r@[j]),
            forall|h: RawHandle| #[trigger] self.live(h) ==> r@.contains(h),
            forall|j1: int, j2: int|
                0 <= j1 < r.len() && 0 <= j2 < r.len() && j1 != j2 ==> r@[j1] != r@[j2],
    {
        let mut out: Vec<RawHandle> = Vec::new();
        let n = self.slots.len();
        let mut idx: usize = 0;
        while idx < n
            invariant
                n == self.slots.len(),
                idx <= n,
                self.wf(),
                forall|j: int| 0 <= j < out.len() ==> self.live(#[trigger] out@[j]),
                forall|j: int| 0 <= j < out.len() ==> (#[trigger] out@[j]).index < idx,
                forall|h: RawHandle|
                    #[trigger] self.live(h) && h.index < idx ==> out@.contains(h),
                forall|j1: int, j2: int|
                    0 <= j1 < out.len() && 0 <= j2 < out.len() && j1 != j2 ==> out@[j1]
                        != out@[j2],
            decreases n - idx,
        {
            let ghost out0 = out@;
            let g = self.slots[idx].generation;
            if g % 2 == 1 {
                let h = RawHandle { index: idx, generation: g };
                out.push(h);
                proof {
                    assert forall|h2: RawHandle|
                        #[trigger] self.live(h2) && h2.index < idx + 1 implies out@.contains(
                        h2,
                    ) by {
                        if h2.index < idx {
                            let j = choose|j: int| 0 <= j < out0.len() && out0[j] == h2;
                            assert(out@[j] == h2);
                        } else {
                            assert(h2 == h);
                            assert(out@[out@.len() - 1] == h2);
                        }
                    }
                }
            } else {
                proof {
                    assert forall|h2: RawHandle|
                        #[trigger] self.live(h2) && h2.index < idx + 1 implies out@.contains(
                        h2,
                    ) by {
                        assert(h2.index != idx);
                        let j = choose|j: int| 0 <= j < out0.len() && out0[j] == h2;
                        assert(out@[j] == h2);
                    }
                }
            }
            idx = idx + 1;
        }
        out
    }

    /// Remove the entry behind `h`. The handle goes dead and stays dead; a
    /// handle that is not live leaves the table untouched.
    pub fn remove(&mut self, h: RawHandle) -> (r: Option<V>)
        requires
            old(self).wf(),
        ensures
            final(self).wf(),
            old(self).live(h) ==> r == Some(old(self).contents()[h]),
            old(self).live(h) ==> final(self).dead(h),
            old(self).live(h) ==> final(self).contents() == old(self).contents().remove(h),
            !old(self).live(h) ==> r is None && *final(self) == *old(self),
            forall|h2: RawHandle| #[trigger] old(self).dead(h2) ==> final(self).dead(h2),
            forall|h2: RawHandle|
                h2 != h && #[trigger] old(self).live(h2) ==> final(self).live(h2)
                    && final(self).contents()[h2] == old(self).contents()[h2],
    {
        if h.index < self.slots.len() && self.slots[h.index].generation == h.generation
            && h.generation % 2 == 1 {
            proof {
                assert(slot_ok(self.slots[h.index as int]));
            }
            let g = self.slots[h.index].generation + 1;
            let slot = &mut self.slots[h.index];
            slot.generation = g;
            let r = slot.value.take();
            proof {
                assert(self.contents() =~= old(self).contents().remove(h));
            }
            r
        } else {
            None
        }
    }

    /// Take out every live entry, in slot order. Every handle that was live
    /// goes dead; the table ends empty but keeps its generations, so old
    /// handles stay stale.
    pub fn drain(&mut self) -> (r: Vec<(RawHandle, V)>)
        requires
            old(self).wf(),
        ensures
            final(self).wf(),
            forall|h: RawHandle| !final(self).live(h),
            forall|h: RawHandle| #[trigger] old(self).dead(h) ==> final(self).dead(h),
            forall|h: RawHandle| #[trigger] old(self).live(h) ==> final(self).dead(h),
            forall|j: int|
                0 <= j < r.len() ==> #[trigger] old(self).live(r[j].0) && r[j].1 == old(
                    self,
                ).contents()[r[j].0],
            forall|h: RawHandle| #[trigger] old(self).live(h) ==> exists|j: int|
                0 <= j < r.len() && r[j].0 == h,
            forall|j1: int, j2: int|
                0 <= j1 < r.len() && 0 <= j2 < r.len() && j1 != j2 ==> (#[trigger] r[j1].0).index
                    != (#[trigger] r[j2].0).index,
    {
        let mut out: Vec<(RawHandle, V)> = Vec::new();
        let n = self.slots.len();
        let mut idx: usize = 0;
        while idx < n
            invariant
                old(self).wf(),
                n == self.slots.len(),
                n == old(self).slots.len(),
                idx <= n,
                self.wf(),
                forall|i: int| idx <= i < n ==> #[trigger] self.slots[i] == old(self).slots[i],
                forall|i: int|
                    0 <= i < idx ==> #[trigger] self.slots[i].value is None && self.slots[i].generation
                        >= old(self).slots[i].generation,
                forall|i: int|
                    0 <= i < idx && (#[trigger] old(self).slots[i]).value is Some ==> self.slots[i].generation
                        > old(self).slots[i].generation,
                forall|j: int|
                    0 <= j < out.len() ==> old(self).live((#[trigger] out@[j]).0) && out[j].1
                        == old(self).contents()[out[j].0] && out[j].0.index < idx,
                forall|h: RawHandle|
                    #[trigger] old(self).live(h) && h.index < idx ==> exists|j: int|
                        0 <= j < out.len() && out[j].0 == h,
                forall|j1: int, j2: int|
                    0 <= j1 < out.len() && 0 <= j2 < out.len() && j1 != j2 ==> (
                    #[trigger] out[j1].0).index != (#[trigger] out[j2].0).index,
            decreases n - idx,
        {
            let ghost out0 = out@;
            let ghost self0 = *self;
            let g = self.slots[idx].generation;
            if self.slots[idx].value.is_some() {
                proof {
                    assert(slot_ok(self0.slots[idx as int]));
                    assert(self0.slots[idx as int] == old(self).slots[idx as int]);
                }
                let slot = &mut self.slots[idx];
                slot.generation = g + 1;
                let v = slot.value.take();
                let h = RawHandle { index: idx, generation: g };
                out.push((h, v.unwrap()));
                proof {
                    assert(old(self).live(h));
                    assert(out@ == out0.push((h, old(self).contents()[h])));
                    assert forall|i: int| idx + 1 <= i < n implies #[trigger] self.slots[i] == old(
                        self,
                    ).slots[i] by {
                        assert(self.slots[i] == self0.slots[i]);
                    }
                    assert forall|h2: RawHandle|
                        #[trigger] old(self).live(h2) && h2.index < idx + 1 implies exists|j: int|
                        0 <= j < out.len() && out[j].0 == h2 by {
                        if h2.index < idx {
                            let j = choose|j: int| 0 <= j < out0.len() && out0[j].0 == h2;
                            assert(out[j].0 == h2);
                        } else {
                            assert(h2 == h);
                            assert(out[out.len() - 1].0 == h2);
                        }
                    }
                    assert forall|j1: int, j2: int|
                        0 <= j1 < out.len() && 0 <= j2 < out.len() && j1 != j2 implies (
                    #[trigger] out[j1].0).index != (#[trigger] out[j2].0).index by {
                        if j1 == out.len() - 1 {
                            assert(out0[j2].0.index < idx);
                        } else if j2 == out.len() - 1 {
                            assert(out0[j1].0.index < idx);
                        }
                    }
                }
            } else {
                proof {
                    assert(slot_ok(self.slots[idx as int]));
                    assert forall|h2: RawHandle|
                        #[trigger] old(self).live(h2) && h2.index < idx + 1 implies exists|j: int|
                        0 <= j < out.len() && out[j].0 == h2 by {
                        assert(h2.index != idx);
                        let j = choose|j: int| 0 <= j < out0.len() && out0[j].0 == h2;
                        assert(out[j].0 == h2);
                    }
                }
            }
            idx = idx + 1;
        }
        out
    }
}

} // verus!
