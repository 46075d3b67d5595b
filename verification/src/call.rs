//! The callable protocol: invoking native callables against the narrow
//! capability the surrounding interpreter exposes.
//!
//! The `Executor` trait is this core's view of the excluded evaluator; the
//! host implements it. Native callables depend only on this surface — never
//! on the host's frame or stack representation. Both outcomes of a call
//! travel through the ordinary two-outcome channel: a value handle or a
//! propagated exception value. Invoking a non-callable object is a distinct
//! `NotCallableError`, not an ordinary exception value.
use vstd::prelude::*;

use crate::arena::fresh;
use crate::arena::preserved;
use crate::arena::Arena;
use crate::context::PyContext;
use crate::object::PyError;
use crate::object::PyObject;
use crate::object::PyObjectKind;
use crate::object::PyObjectRef;
use crate::object::PyResult;

verus! {

/// The capability handle the surrounding interpreter supplies to native
/// code: invoke a callable, build text and boolean values, fetch the
/// canonical none and type objects, and reach the context. The value
/// factories promise the same as the context's own factories. Invoked code
/// may compute anything and grow the arena freely; all it owes is to keep
/// the arena well-formed.
pub trait Executor {
    /// Invoke the callable behind `f`, typically by re-entering the
    /// excluded bytecode evaluator.
    fn call(&mut self, arena: &mut Arena, f: PyObjectRef) -> (res: PyResult)
        requires
            old(arena).wf(),
        ensures
            final(arena).wf(),
    ;

    /// Run the native function registered under `function` on `args`.
    fn invoke_native(
        &mut self,
        arena: &mut Arena,
        function: u64,
        args: Vec<PyObjectRef>,
    ) -> (res: PyResult)
        requires
            old(arena).wf(),
        ensures
            final(arena).wf(),
    ;

    /// Build a fresh text value, stamped and allocated like the context
    /// factory of the same name.
    fn new_str(&self, arena: &mut Arena, s: String) -> (r: PyObjectRef)
        requires
            old(arena).wf(),
        ensures
            final(arena).wf(),
            (final(arena).obj(r).kind matches PyObjectKind::String { value } && value == s),
            fresh(r, *old(arena), *final(arena)),
            preserved(*old(arena), *final(arena)),
    ;

    /// Build a fresh boolean value.
    fn new_bool(&self, arena: &mut Arena, b: bool) -> (r: PyObjectRef)
        requires
            old(arena).wf(),
        ensures
            final(arena).wf(),
            final(arena).obj(r).kind == (PyObjectKind::Boolean { value: b }),
            fresh(r, *old(arena), *final(arena)),
            preserved(*old(arena), *final(arena)),
    ;

    /// The canonical unit/absence value of this interpreter instance. No
    /// arena is at hand here, so nothing can be promised of the handle:
    /// callers check it against their arena with `is_live` before use.
    fn get_none(&self) -> PyObjectRef;

    /// The canonical universal type object of this interpreter instance.
    /// As with `get_none`, callers check the handle against their arena.
    fn get_type(&self) -> PyObjectRef;

    /// The context this instance was bootstrapped with.
    fn context(&self) -> &PyContext;
}

impl PyObject {
    /// Invoke the object behind `f` on positional `args` through the
    /// executor capability. An object is callable exactly when its kind is
    /// `RustFunction`; its outcome — value or propagated exception — comes
    /// back unjudged. A non-callable object is a `NotCallableError` and a
    /// stale handle a `ValueError`, each leaving the arena untouched.
    pub fn call<E: Executor>(
        arena: &mut Arena,
        f: &PyObjectRef,
        rt: &mut E,
        args: Vec<PyObjectRef>,
    ) -> (res: Result<PyResult, PyError>)
        requires
            old(arena).wf(),
        ensures
            final(arena).wf(),
            res is Ok <==> (old(arena).live(*f) && old(arena).obj(*f).kind is RustFunction),
            !old(arena).live(*f) ==> res == Err::<PyResult, PyError>(PyError::ValueError)
                && *final(arena) == *old(arena),
            old(arena).live(*f) && !(old(arena).obj(*f).kind is RustFunction) ==> res == Err::<
                PyResult,
                PyError,
            >(PyError::NotCallableError) && *final(arena) == *old(arena),
    {
        if !arena.is_live(f) {
            return Err(PyError::ValueError);
        }
        let function = match &arena.get(f).kind {
            PyObjectKind::RustFunction { function } => *function,
            _ => {
                return Err(PyError::NotCallableError);
            },
        };
        Ok(rt.invoke_native(arena, function, args))
    }
}

} // verus!
