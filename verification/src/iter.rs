//! The iterator protocol: a stateful cursor object bound to a sequence
//! object, advancing over the sequence's live state.
//!
//! No length snapshot is taken when an iterator is built: every `nxt` call
//! reads the target's current element count, so mutating the target mid-
//! iteration is observable, defined behavior. Exhaustion is terminal and
//! idempotent — once the position has reached the count, every further call
//! reports exhaustion and changes nothing (the arena is left untouched, so
//! a later call starts from the same state and reports the same).
use vstd::prelude::*;

use crate::arena::Arena;
use crate::object::PyError;
use crate::object::PyObject;
use crate::object::PyObjectKind;
use crate::object::PyObjectRef;

verus! {

/// What one `nxt` step on the iterator behind `r` yields: the element at the
/// current position of a list target (`Ok(Some(..))`), exhaustion
/// (`Ok(None)`), `UnsupportedIterationError` for a non-iterator object or a
/// non-sequence target, or `ValueError` for a stale handle.
pub open spec fn nxt_result(a: Arena, r: PyObjectRef) -> Result<Option<PyObjectRef>, PyError> {
    if !a.live(r) {
        Err(PyError::ValueError)
    } else {
        match a.obj(r).kind {
            PyObjectKind::Iterator { position, iterated_obj } => {
                if !a.live(iterated_obj) {
                    Err(PyError::ValueError)
                } else {
                    match a.obj(iterated_obj).kind {
                        PyObjectKind::List { elements } => {
                            if position < elements@.len() {
                                Ok(Option::Some(elements@[position as int]))
                            } else {
                                Ok(Option::None)
                            }
                        },
                        _ => Err(PyError::UnsupportedIterationError),
                    }
                }
            },
            _ => Err(PyError::UnsupportedIterationError),
        }
    }
}

impl PyObject {
    /// One step of the iterator protocol on the object behind `r`. Exactly
    /// when an element comes back, the iterator's position advances by one;
    /// on exhaustion or failure nothing changes at all.
    pub fn nxt(arena: &mut Arena, r: &PyObjectRef) -> (res: Result<Option<PyObjectRef>, PyError>)
        ensures
            res == nxt_result(*old(arena), *r),
            old(arena).wf() ==> final(arena).wf(),
            final(arena).slot_count() == old(arena).slot_count(),
            forall|q: PyObjectRef| old(arena).live(q) <==> final(arena).live(q),
            forall|q: PyObjectRef|
                old(arena).live(q) && q != *r ==> final(arena).obj(q) == old(arena).obj(q),
            match res {
                Ok(Option::Some(_)) => final(arena).obj(*r) == (PyObject {
                    kind: PyObjectKind::Iterator {
                        position: (old(arena).obj(*r).kind->Iterator_position + 1) as usize,
                        iterated_obj: old(arena).obj(*r).kind->Iterator_iterated_obj,
                    },
                    typ: old(arena).obj(*r).typ,
                    dict: old(arena).obj(*r).dict,
                }),
                _ => *final(arena) == *old(arena),
            },
    {
        if !arena.is_live(r) {
            return Err(PyError::ValueError);
        }
        let (position, target) = match &arena.get(r).kind {
            PyObjectKind::Iterator { position, iterated_obj } => (*position, *iterated_obj),
            _ => {
                return Err(PyError::UnsupportedIterationError);
            },
        };
        if !arena.is_live(&target) {
            return Err(PyError::ValueError);
        }
        let step: Option<Option<PyObjectRef>> = match &arena.get(&target).kind {
            PyObjectKind::List { elements } => {
                if position < elements.len() {
                    Option::Some(Option::Some(elements[position]))
                } else {
                    Option::Some(Option::None)
                }
            },
            _ => Option::None,
        };
        match step {
            Option::None => Err(PyError::UnsupportedIterationError),
            Option::Some(Option::None) => Ok(Option::None),
            Option::Some(Option::Some(element)) => {
                arena.set_iterator_position(r, position + 1);
                Ok(Option::Some(element))
            },
        }
    }
}

} // verus!
