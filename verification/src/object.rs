//! The tagged runtime value representation: `PyObject`, its `PyObjectKind`
//! variant set, the handle type `PyObjectRef`, and the typed failures that
//! every fallible operation reports through its ordinary result channel.
use vstd::prelude::*;

use crate::arena::fresh;
use crate::arena::preserved;
use crate::arena::Arena;

verus! {

/// A shared handle to one object in an [`crate::arena::Arena`].
///
/// Many handles may alias the same object; a mutation made through the arena
/// is visible through every alias. The generation number makes a handle to a
/// reclaimed slot detectably stale: the arena never reuses a slot without
/// first changing the slot's generation.
#[derive(Clone, Copy, PartialEq, Eq, Structural, Debug)]
pub struct PyObjectRef {
    pub index: usize,
    pub gen: u64,
}

/// The two-outcome channel of the callable protocol: a value, or an
/// exception value propagated from interpreted or native code.
pub type PyResult = Result<PyObjectRef, PyObjectRef>;

/// The typed, recoverable failures of this core. Every user-triggered error
/// condition surfaces as one of these through an ordinary `Result`; none of
/// them terminates the process.
#[derive(Clone, Copy, PartialEq, Eq, Structural, Debug)]
pub enum PyError {
    /// An operator or comparison was applied to an unsupported pair of kinds.
    TypeError,
    /// A stale handle (its object was reclaimed), or an object graph too
    /// deep or cyclic for a recursive operation to walk.
    ValueError,
    /// Checked integer arithmetic left the representable range.
    OverflowError,
    /// Division with a zero divisor.
    DivisionByZeroError,
    /// An object whose kind is not callable was invoked.
    NotCallableError,
    /// An iterator was advanced over an object that is not a supported
    /// sequence kind, or a non-iterator object was advanced.
    UnsupportedIterationError,
}

/// An opaque compiled-program blob produced by the excluded compiler.
/// This core stores the bytes unexamined and never inspects or executes
/// them.
#[derive(Clone, PartialEq, Eq, Debug)]
pub struct CodeObject {
    pub blob: Vec<u8>,
}

/// The closed, exhaustive set of kinds a runtime value can have.
/// An object carries exactly one kind for its whole lifetime.
#[derive(PartialEq, Eq, Debug)]
pub enum PyObjectKind {
    String { value: String },
    Integer { value: i32 },
    Boolean { value: bool },
    List { elements: Vec<PyObjectRef> },
    Tuple { elements: Vec<PyObjectRef> },
    /// Text-keyed mapping; the keys are unique.
    Dict { elements: Vec<(String, PyObjectRef)> },
    /// A cursor over a sequence object. `position` only increases and is
    /// compared against the target's current length on every step.
    Iterator { position: usize, iterated_obj: PyObjectRef },
    Slice { start: Option<i32>, stop: Option<i32>, step: Option<i32> },
    /// A primitive error-marker value, not an exception class.
    NameError { name: String },
    Code { code: CodeObject },
    Function { code: CodeObject },
    Module { name: String },
    NoneValue,
    Class { name: String },
    /// A fixed-signature native callable, identified by the handle under
    /// which the surrounding interpreter registered it; invocation goes
    /// through the `Executor` capability.
    RustFunction { function: u64 },
}

/// A runtime value: exactly one kind, an optional link to the object that
/// represents this value's type (absent only for the root type object), and
/// an open attribute table with unique text keys.
#[derive(Debug)]
pub struct PyObject {
    pub kind: PyObjectKind,
    pub typ: Option<PyObjectRef>,
    pub dict: Vec<(String, PyObjectRef)>,
}

/// The keys of a text-keyed table are pairwise distinct: the table is a
/// mapping.
pub open spec fn keys_unique(entries: Seq<(String, PyObjectRef)>) -> bool {
    forall|i: int, j: int| 0 <= i < j < entries.len() ==> entries[i].0@ != entries[j].0@
}

impl PyObjectKind {
    /// A well-formed kind: a mapping value's keys are unique. Every other
    /// kind carries no table and is well-formed as it stands.
    pub open spec fn wf(self) -> bool {
        match self {
            PyObjectKind::Dict { elements } => keys_unique(elements@),
            _ => true,
        }
    }
}

impl PyObject {
    /// The attribute table's keys are unique: the table is a mapping.
    pub open spec fn dict_wf(self) -> bool {
        keys_unique(self.dict@)
    }

    /// A well-formed object: both of its text-keyed tables — the attribute
    /// table and, for a mapping value, the element table — are mappings.
    pub open spec fn wf(self) -> bool {
        &&& self.dict_wf()
        &&& self.kind.wf()
    }

    /// The single construction entry point: a fresh object of the given kind,
    /// stamped with the given type link and an empty attribute table, already
    /// wrapped in a fresh handle.
    pub fn new(arena: &mut Arena, kind: PyObjectKind, typ: PyObjectRef) -> (r: PyObjectRef)
        requires
            old(arena).wf(),
        ensures
            final(arena).wf(),
            final(arena).obj(r).kind == kind,
            final(arena).obj(r).typ == Option::Some(typ),
            final(arena).obj(r).dict@.len() == 0,
            fresh(r, *old(arena), *final(arena)),
            preserved(*old(arena), *final(arena)),
            final(arena).slot_count() <= old(arena).slot_count() + 1,
    {
        let o = PyObject { kind, typ: Option::Some(typ), dict: Vec::new() };
        o.into_ref(arena)
    }

    /// Move this object into the arena, transferring ownership, and hand out
    /// the first reference to it.
    pub fn into_ref(self, arena: &mut Arena) -> (r: PyObjectRef)
        requires
            old(arena).wf(),
        ensures
            final(arena).wf(),
            final(arena).obj(r) == self,
            fresh(r, *old(arena), *final(arena)),
            preserved(*old(arena), *final(arena)),
            final(arena).slot_count() <= old(arena).slot_count() + 1,
    {
        arena.allocate(self)
    }
}

impl Default for PyObject {
    /// The bare value: kind `NoneValue`, no type link, empty attribute table.
    fn default() -> (o: PyObject)
        ensures
            o.kind is NoneValue,
            o.typ is None,
            o.dict@.len() == 0,
    {
        PyObject { kind: PyObjectKind::NoneValue, typ: Option::None, dict: Vec::new() }
    }
}

} // verus!
