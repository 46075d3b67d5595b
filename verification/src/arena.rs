//! The shared-ownership substrate: an arena of objects addressed by
//! generation-checked indices.
//!
//! A `PyObjectRef` is an index into the arena together with the generation
//! the slot had when the object was allocated. Aliasing is free (handles are
//! `Copy`), every read or write goes through the arena, and Rust's borrow
//! rules enforce the exclusive-or-shared access discipline at compile time:
//! at any instant there are either read-only views or one mutable view of
//! the arena's objects, never a conflicting overlap.
//!
//! Reclamation is explicit: `free` retires a slot, bumps its generation and
//! puts it on a free stack for reuse, so every handle issued before the
//! call is detectably stale afterwards. Freeing an object does not free the
//! objects it holds handles to, and nothing walks the graph for cycles:
//! unreleased descendants and cyclic structures stay allocated until freed
//! explicitly — the accepted limitation of this memory model.
use vstd::prelude::*;

use crate::object::PyObject;
use crate::object::PyObjectKind;
use crate::object::PyObjectRef;

verus! {

/// One arena slot: in use and holding an object, or free.
pub enum SlotState {
    Free,
    Used { object: PyObject },
}

/// A slot together with its current generation. The generation changes when
/// the slot is retired, so handles from an earlier tenancy never match again.
pub struct Slot {
    pub gen: u64,
    pub state: SlotState,
}

/// The object arena: every `PyObject` of one interpreter instance lives in
/// exactly one of its slots.
pub struct Arena {
    slots: Vec<Slot>,
    free_stack: Vec<usize>,
}

/// Every handle live in `a0` is live in `a1` and denotes the same object:
/// nothing that existed was changed or reclaimed.
pub open spec fn preserved(a0: Arena, a1: Arena) -> bool {
    forall|q: PyObjectRef| a0.live(q) ==> a1.live(q) && a1.obj(q) == a0.obj(q)
}

/// Going from `a0` to `a1`, exactly one handle appeared, `r`, and it is new:
/// no alias of it existed before.
pub open spec fn fresh(r: PyObjectRef, a0: Arena, a1: Arena) -> bool {
    &&& a1.live(r)
    &&& !a0.live(r)
    &&& forall|q: PyObjectRef| a1.live(q) && q != r ==> a0.live(q)
}

/// A live handle's index lies below the slot count: every live handle
/// witnesses that the arena holds at least `index + 1` slots. Together with
/// `lemma_live_distinct_slots` this lets callers bound the slot count from
/// below and so discharge the recursion fuel of the object-graph walkers.
pub proof fn lemma_live_index_bound(a: Arena, r: PyObjectRef)
    requires
        a.live(r),
    ensures
        r.index < a.slot_count(),
{
}

/// Distinct live handles occupy distinct slots: a slot holds one generation
/// at a time, so two live handles to the same index are the same handle.
/// `n` pairwise distinct live handles therefore witness a slot count of at
/// least `n`.
pub proof fn lemma_live_distinct_slots(a: Arena, r1: PyObjectRef, r2: PyObjectRef)
    requires
        a.live(r1),
        a.live(r2),
        r1 != r2,
    ensures
        r1.index != r2.index,
{
}

impl Arena {
    /// The handle denotes a currently allocated object.
    pub closed spec fn live(self, r: PyObjectRef) -> bool {
        &&& r.index < self.slots@.len()
        &&& self.slots@[r.index as int].gen == r.gen
        &&& self.slots@[r.index as int].state is Used
    }

    /// The object a live handle denotes.
    pub closed spec fn obj(self, r: PyObjectRef) -> PyObject {
        self.slots@[r.index as int].state->Used_object
    }

    /// Number of slots the arena holds; an upper bound on the depth of any
    /// acyclic chain of objects, used as recursion fuel by the walkers.
    pub closed spec fn slot_count(self) -> nat {
        self.slots@.len()
    }

    /// Well-formedness of the free stack: every entry is a distinct,
    /// in-bounds, free slot.
    pub closed spec fn wf(self) -> bool {
        &&& forall|k: int|
            0 <= k < self.free_stack@.len() ==> #[trigger] self.free_stack@[k] < self.slots@.len()
                && self.slots@[self.free_stack@[k] as int].state is Free
        &&& forall|k1: int, k2: int|
            0 <= k1 < k2 < self.free_stack@.len() ==> self.free_stack@[k1] != self.free_stack@[k2]
    }

    /// An arena with no objects.
    pub fn new() -> (a: Arena)
        ensures
            a.wf(),
            a.slot_count() == 0,
            forall|q: PyObjectRef| !a.live(q),
    {
        Arena { slots: Vec::new(), free_stack: Vec::new() }
    }

    /// Place an object in the arena and hand out the first reference to it.
    /// The handle is fresh: it was not live before, and every previously
    /// live handle still denotes its old object.
    pub fn allocate(&mut self, object: PyObject) -> (r: PyObjectRef)
        requires
            old(self).wf(),
        ensures
            final(self).wf(),
            final(self).obj(r) == object,
            fresh(r, *old(self), *final(self)),
            preserved(*old(self), *final(self)),
            old(self).slot_count() <= final(self).slot_count() <= old(self).slot_count() + 1,
    {
        match self.free_stack.pop() {
            Option::Some(i) => {
                let g = self.slots[i].gen;
                self.slots[i].state = SlotState::Used { object };
                PyObjectRef { index: i, gen: g }
            },
            Option::None => {
                let i = self.slots.len();
                self.slots.push(Slot { gen: 0, state: SlotState::Used { object } });
                PyObjectRef { index: i, gen: 0 }
            },
        }
    }

    /// Read-only view of a live object.
    pub fn get(&self, r: &PyObjectRef) -> (o: &PyObject)
        requires
            self.live(*r),
        ensures
            *o == self.obj(*r),
    {
        match &self.slots[r.index].state {
            SlotState::Used { object } => object,
            SlotState::Free => vstd::pervasive::unreached(),
        }
    }

    /// Whether a handle currently denotes an allocated object.
    pub fn is_live(&self, r: &PyObjectRef) -> (b: bool)
        ensures
            b == self.live(*r),
    {
        if r.index < self.slots.len() {
            let slot = &self.slots[r.index];
            slot.gen == r.gen && (matches!(slot.state, SlotState::Used { .. }))
        } else {
            false
        }
    }

    /// The number of slots, live or free; exposed so callers can size the
    /// recursion fuel of the object-graph walkers.
    pub fn slot_len(&self) -> (n: usize)
        ensures
            n == self.slot_count(),
    {
        self.slots.len()
    }

    /// Advance the stored position of an iterator object in place. Only the
    /// position changes: the target link, the type link, the attribute table
    /// and every other object stay exactly as they were.
    pub(crate) fn set_iterator_position(&mut self, r: &PyObjectRef, new_pos: usize)
        requires
            old(self).live(*r),
            old(self).obj(*r).kind is Iterator,
        ensures
            old(self).wf() ==> final(self).wf(),
            final(self).slot_count() == old(self).slot_count(),
            forall|q: PyObjectRef| old(self).live(q) <==> final(self).live(q),
            forall|q: PyObjectRef|
                old(self).live(q) && q != *r ==> final(self).obj(q) == old(self).obj(q),
            final(self).obj(*r) == (PyObject {
                kind: PyObjectKind::Iterator {
                    position: new_pos,
                    iterated_obj: old(self).obj(*r).kind->Iterator_iterated_obj,
                },
                typ: old(self).obj(*r).typ,
                dict: old(self).obj(*r).dict,
            }),
    {
        let slot = &mut self.slots[r.index];
        match &mut slot.state {
            SlotState::Used { object } => {
                match &mut object.kind {
                    PyObjectKind::Iterator { position, .. } => {
                        *position = new_pos;
                    },
                    _ => {},
                }
            },
            SlotState::Free => {},
        }
    }

    /// Replace the attribute table of a live object in place; its kind and
    /// type link and every other object stay exactly as they were.
    pub(crate) fn set_dict(&mut self, r: &PyObjectRef, dict: Vec<(String, PyObjectRef)>)
        requires
            old(self).live(*r),
        ensures
            old(self).wf() ==> final(self).wf(),
            final(self).slot_count() == old(self).slot_count(),
            forall|q: PyObjectRef| old(self).live(q) <==> final(self).live(q),
            forall|q: PyObjectRef|
                old(self).live(q) && q != *r ==> final(self).obj(q) == old(self).obj(q),
            final(self).obj(*r) == (PyObject {
                kind: old(self).obj(*r).kind,
                typ: old(self).obj(*r).typ,
                dict,
            }),
    {
        let slot = &mut self.slots[r.index];
        match &mut slot.state {
            SlotState::Used { object } => {
                object.dict = dict;
            },
            SlotState::Free => {},
        }
    }

    /// Append an element to a list object in place. Only the list grows:
    /// its existing elements, its type link, its attribute table and every
    /// other object stay exactly as they were. Because iterators read their
    /// target's length fresh on every step, growth is visible to an
    /// iteration already under way.
    pub fn list_push(&mut self, r: &PyObjectRef, element: PyObjectRef)
        requires
            old(self).live(*r),
            old(self).obj(*r).kind is List,
            old(self).obj(*r).kind->List_elements@.len() < usize::MAX,
        ensures
            old(self).wf() ==> final(self).wf(),
            final(self).slot_count() == old(self).slot_count(),
            forall|q: PyObjectRef| old(self).live(q) <==> final(self).live(q),
            forall|q: PyObjectRef|
                old(self).live(q) && q != *r ==> final(self).obj(q) == old(self).obj(q),
            final(self).obj(*r).kind is List,
            final(self).obj(*r).kind->List_elements@ == old(self).obj(
                *r,
            ).kind->List_elements@.push(element),
            final(self).obj(*r).typ == old(self).obj(*r).typ,
            final(self).obj(*r).dict == old(self).obj(*r).dict,
    {
        let slot = &mut self.slots[r.index];
        match &mut slot.state {
            SlotState::Used { object } => {
                match &mut object.kind {
                    PyObjectKind::List { elements } => {
                        elements.push(element);
                    },
                    _ => {},
                }
            },
            SlotState::Free => {},
        }
    }

    /// Release the last reference to an object: the slot is retired, its
    /// generation changes, and it becomes available for reuse, so `r` and
    /// every alias of it are stale from here on. Handles the object held
    /// (elements, attributes, type link) are not released with it.
    pub fn free(&mut self, r: &PyObjectRef)
        requires
            old(self).wf(),
            old(self).live(*r),
        ensures
            final(self).wf(),
            !final(self).live(*r),
            final(self).slot_count() == old(self).slot_count(),
            forall|q: PyObjectRef|
                old(self).live(q) && q != *r ==> final(self).live(q) && final(self).obj(q) == old(
                    self,
                ).obj(q),
            forall|q: PyObjectRef| final(self).live(q) ==> old(self).live(q) && q != *r,
    {
        let i = r.index;
        let g = self.slots[i].gen;
        self.slots[i].state = SlotState::Free;
        if g < u64::MAX {
            self.slots[i].gen = g + 1;
            self.free_stack.push(i);
        }
        // A slot whose generation space is spent is retired for good: it is
        // never stacked for reuse, so no stale handle can ever revive.
    }
}

} // verus!
