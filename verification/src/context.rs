//! The per-interpreter-instance context: owner of the canonical type objects
//! and the factory functions that stamp newly built values with their type
//! link.
//!
//! Bootstrap policy: the universal type object is built first and its own
//! type link is absent (`typ` is `None`); every other canonical type object
//! links to it. The context is an explicit value handed to whoever builds
//! values — there is no ambient global.
use vstd::prelude::*;

use crate::arena::fresh;
use crate::arena::preserved;
use crate::arena::Arena;
use crate::object::PyObject;
use crate::object::PyObjectKind;
use crate::object::PyObjectRef;

verus! {

/// Holder of the canonical type objects of one interpreter instance. These
/// objects live for the whole instance lifetime and are never freed while
/// the instance exists.
pub struct PyContext {
    pub type_type: PyObjectRef,
    pub int_type: PyObjectRef,
}

impl PyContext {
    /// Both canonical type objects are allocated.
    pub open spec fn wf(self, arena: Arena) -> bool {
        &&& arena.live(self.type_type)
        &&& arena.live(self.int_type)
        &&& self.type_type != self.int_type
    }

    /// Bootstrap a fresh context: first the universal type object (its own
    /// type link absent), then the integer type object, linked to it.
    pub fn new(arena: &mut Arena) -> (ctx: PyContext)
        requires
            old(arena).wf(),
        ensures
            final(arena).wf(),
            ctx.wf(*final(arena)),
            preserved(*old(arena), *final(arena)),
            !old(arena).live(ctx.type_type),
            !old(arena).live(ctx.int_type),
            (final(arena).obj(ctx.type_type).kind matches PyObjectKind::Class { name }
                && name@ == "type"@),
            final(arena).obj(ctx.type_type).typ is None,
            (final(arena).obj(ctx.int_type).kind matches PyObjectKind::Class { name }
                && name@ == "int"@),
            final(arena).obj(ctx.int_type).typ == Option::Some(ctx.type_type),
            final(arena).slot_count() <= old(arena).slot_count() + 2,
    {
        let type_type = PyObject {
            kind: PyObjectKind::Class { name: "type".to_owned() },
            typ: Option::None,
            dict: Vec::new(),
        }.into_ref(arena);
        let int_type = PyObject::new(
            arena,
            PyObjectKind::Class { name: "int".to_owned() },
            type_type,
        );
        PyContext { type_type, int_type }
    }

    /// A fresh integer value, stamped with the canonical integer type link.
    /// Factories never cache: two calls with the same value build two
    /// distinct objects.
    pub fn new_int(&self, arena: &mut Arena, i: i32) -> (r: PyObjectRef)
        requires
            old(arena).wf(),
        ensures
            final(arena).wf(),
            final(arena).obj(r).kind == (PyObjectKind::Integer { value: i }),
            final(arena).obj(r).typ == Option::Some(self.int_type),
            final(arena).obj(r).dict@.len() == 0,
            fresh(r, *old(arena), *final(arena)),
            preserved(*old(arena), *final(arena)),
            final(arena).slot_count() <= old(arena).slot_count() + 1,
    {
        PyObject::new(arena, PyObjectKind::Integer { value: i }, self.int_type)
    }

    /// A fresh text value.
    pub fn new_str(&self, arena: &mut Arena, s: String) -> (r: PyObjectRef)
        requires
            old(arena).wf(),
        ensures
            final(arena).wf(),
            (final(arena).obj(r).kind matches PyObjectKind::String { value } && value == s),
            final(arena).obj(r).typ == Option::Some(self.type_type),
            final(arena).obj(r).dict@.len() == 0,
            fresh(r, *old(arena), *final(arena)),
            preserved(*old(arena), *final(arena)),
            final(arena).slot_count() <= old(arena).slot_count() + 1,
    {
        PyObject::new(arena, PyObjectKind::String { value: s }, self.type_type)
    }

    /// A fresh boolean value.
    pub fn new_bool(&self, arena: &mut Arena, b: bool) -> (r: PyObjectRef)
        requires
            old(arena).wf(),
        ensures
            final(arena).wf(),
            final(arena).obj(r).kind == (PyObjectKind::Boolean { value: b }),
            final(arena).obj(r).typ == Option::Some(self.type_type),
            final(arena).obj(r).dict@.len() == 0,
            fresh(r, *old(arena), *final(arena)),
            preserved(*old(arena), *final(arena)),
            final(arena).slot_count() <= old(arena).slot_count() + 1,
    {
        PyObject::new(arena, PyObjectKind::Boolean { value: b }, self.type_type)
    }

    /// A fresh class value carrying its name.
    pub fn new_class(&self, arena: &mut Arena, name: String) -> (r: PyObjectRef)
        requires
            old(arena).wf(),
        ensures
            final(arena).wf(),
            (final(arena).obj(r).kind matches PyObjectKind::Class { name: n } && n == name),
            final(arena).obj(r).typ == Option::Some(self.type_type),
            final(arena).obj(r).dict@.len() == 0,
            fresh(r, *old(arena), *final(arena)),
            preserved(*old(arena), *final(arena)),
            final(arena).slot_count() <= old(arena).slot_count() + 1,
    {
        PyObject::new(arena, PyObjectKind::Class { name }, self.type_type)
    }
}

} // verus!
