//! The equality and ordering engine: pairwise, kind-directed, and loud.
//! Equality is defined only for integer/integer, text/text and list/list
//! pairs; ordering only for integer/integer. Every other pairing — including
//! every cross-kind comparison — is a `TypeError`, never a silent `false`
//! or a guessed order.
//!
//! The walkers carry recursion fuel sized to the arena, so a cyclic or
//! impossibly deep object graph surfaces as a `ValueError` instead of
//! running forever; a stale handle anywhere in the compared structures is a
//! `ValueError` as well.
use vstd::prelude::*;

use crate::arena::Arena;
use crate::object::PyError;
use crate::object::PyObject;
use crate::object::PyObjectKind;
use crate::object::PyObjectRef;

verus! {

/// Outcome of an ordering comparison.
#[derive(Clone, Copy, PartialEq, Eq, Structural, Debug)]
pub enum PyOrdering {
    Less,
    Equal,
    Greater,
}

/// Numeric order of two integers.
pub open spec fn int_order(v1: int, v2: int) -> PyOrdering {
    if v1 < v2 {
        PyOrdering::Less
    } else if v1 == v2 {
        PyOrdering::Equal
    } else {
        PyOrdering::Greater
    }
}

/// The per-kind equatability capability: the pairs of kinds for which
/// equality is defined at all. Adding a kind's equatability later means
/// extending this table, not touching unrelated kinds.
pub open spec fn equatable(k1: PyObjectKind, k2: PyObjectKind) -> bool {
    match (k1, k2) {
        (PyObjectKind::Integer { .. }, PyObjectKind::Integer { .. }) => true,
        (PyObjectKind::String { .. }, PyObjectKind::String { .. }) => true,
        (PyObjectKind::List { .. }, PyObjectKind::List { .. }) => true,
        _ => false,
    }
}

/// Comparing a pair of kinds outside the equatability table — every
/// cross-kind comparison among them — is a `TypeError`, never a silent
/// `false`.
pub proof fn lemma_unsupported_equality(a: Arena, x: PyObjectRef, y: PyObjectRef, fuel: nat)
    requires
        fuel > 0,
        a.live(x),
        a.live(y),
        !equatable(a.obj(x).kind, a.obj(y).kind),
    ensures
        eq_spec(a, x, y, fuel) == Err::<bool, PyError>(PyError::TypeError),
{
}

/// What comparing the objects behind `x` and `y` for equality yields, with
/// `fuel` bounding the nesting depth that may be walked.
pub open spec fn eq_spec(a: Arena, x: PyObjectRef, y: PyObjectRef, fuel: nat) -> Result<
    bool,
    PyError,
>
    decreases fuel, 0int,
{
    if fuel == 0 {
        Err(PyError::ValueError)
    } else if !a.live(x) || !a.live(y) {
        Err(PyError::ValueError)
    } else {
        match (a.obj(x).kind, a.obj(y).kind) {
            (
                PyObjectKind::Integer { value: v1 },
                PyObjectKind::Integer { value: v2 },
            ) => Ok(v1 == v2),
            (PyObjectKind::String { value: s1 }, PyObjectKind::String { value: s2 }) => Ok(
                s1@ == s2@,
            ),
            (PyObjectKind::List { elements: e1 }, PyObjectKind::List { elements: e2 }) => {
                if e1@.len() != e2@.len() {
                    Ok(false)
                } else {
                    eq_elems(a, e1@, e2@, 0, (fuel - 1) as nat)
                }
            },
            _ => Err(PyError::TypeError),
        }
    }
}

/// Pairwise equality of `xs[i..]` against `ys[i..]`, left to right,
/// short-circuiting on the first mismatch or failure.
pub open spec fn eq_elems(
    a: Arena,
    xs: Seq<PyObjectRef>,
    ys: Seq<PyObjectRef>,
    i: int,
    fuel: nat,
) -> Result<bool, PyError>
    decreases fuel, xs.len() - i,
{
    if i >= xs.len() {
        Ok(true)
    } else {
        match eq_spec(a, xs[i], ys[i], fuel) {
            Ok(true) => eq_elems(a, xs, ys, i + 1, fuel),
            Ok(false) => Ok(false),
            Err(e) => Err(e),
        }
    }
}

impl PyObject {
    /// Kind-directed equality of the objects behind two handles: integers by
    /// value, text by value, lists element-wise (equal length and pairwise
    /// equal, order-sensitive, stopping at the first mismatch). Any other
    /// pairing is a `TypeError`; a stale handle or a structure nested deeper
    /// than the arena has slots is a `ValueError`.
    pub fn eq(arena: &Arena, x: &PyObjectRef, y: &PyObjectRef) -> (r: Result<bool, PyError>)
        ensures
            r == eq_spec(*arena, *x, *y, arena.slot_count()),
    {
        let fuel = arena.slot_len();
        eq_rec(arena, x, y, fuel)
    }

    /// Kind-directed ordering: integers order numerically; every other
    /// pairing is a `TypeError`, never a guessed order.
    pub fn cmp(x: &PyObject, y: &PyObject) -> (r: Result<PyOrdering, PyError>)
        ensures
            match (x.kind, y.kind) {
                (
                    PyObjectKind::Integer { value: v1 },
                    PyObjectKind::Integer { value: v2 },
                ) => r == Ok::<PyOrdering, PyError>(int_order(v1 as int, v2 as int)),
                _ => r == Err::<PyOrdering, PyError>(PyError::TypeError),
            },
    {
        match (&x.kind, &y.kind) {
            (PyObjectKind::Integer { value: v1 }, PyObjectKind::Integer { value: v2 }) => {
                if *v1 < *v2 {
                    Ok(PyOrdering::Less)
                } else if *v1 == *v2 {
                    Ok(PyOrdering::Equal)
                } else {
                    Ok(PyOrdering::Greater)
                }
            },
            _ => Err(PyError::TypeError),
        }
    }

    /// Partial ordering, defined exactly where `cmp` is.
    pub fn partial_cmp(x: &PyObject, y: &PyObject) -> (r: Result<Option<PyOrdering>, PyError>)
        ensures
            match (x.kind, y.kind) {
                (
                    PyObjectKind::Integer { value: v1 },
                    PyObjectKind::Integer { value: v2 },
                ) => r == Ok::<Option<PyOrdering>, PyError>(
                    Option::Some(int_order(v1 as int, v2 as int)),
                ),
                _ => r == Err::<Option<PyOrdering>, PyError>(PyError::TypeError),
            },
    {
        match PyObject::cmp(x, y) {
            Ok(o) => Ok(Option::Some(o)),
            Err(e) => Err(e),
        }
    }
}

fn eq_rec(arena: &Arena, x: &PyObjectRef, y: &PyObjectRef, fuel: usize) -> (r: Result<
    bool,
    PyError,
>)
    ensures
        r == eq_spec(*arena, *x, *y, fuel as nat),
    decreases fuel,
{
    if fuel == 0 {
        return Err(PyError::ValueError);
    }
    if !arena.is_live(x) || !arena.is_live(y) {
        return Err(PyError::ValueError);
    }
    let ox = arena.get(x);
    let oy = arena.get(y);
    match (&ox.kind, &oy.kind) {
        (PyObjectKind::Integer { value: v1 }, PyObjectKind::Integer { value: v2 }) => Ok(
            *v1 == *v2,
        ),
        (PyObjectKind::String { value: s1 }, PyObjectKind::String { value: s2 }) => Ok(
            *s1 == *s2,
        ),
        (PyObjectKind::List { elements: e1 }, PyObjectKind::List { elements: e2 }) => {
            if e1.len() != e2.len() {
                return Ok(false);
            }
            let mut i: usize = 0;
            while i < e1.len()
                invariant
                    i <= e1@.len(),
                    e1@.len() == e2@.len(),
                    fuel >= 1,
                    arena.live(*x),
                    arena.live(*y),
                    arena.obj(*x).kind is List,
                    arena.obj(*y).kind is List,
                    e1@ == arena.obj(*x).kind->List_elements@,
                    e2@ == arena.obj(*y).kind->List_elements@,
                    eq_elems(*arena, e1@, e2@, 0, (fuel - 1) as nat) == eq_elems(
                        *arena,
                        e1@,
                        e2@,
                        i as int,
                        (fuel - 1) as nat,
                    ),
                decreases e1@.len() - i,
            {
                match eq_rec(arena, &e1[i], &e2[i], fuel - 1) {
                    Ok(true) => {},
                    Ok(false) => {
                        return Ok(false);
                    },
                    Err(e) => {
                        return Err(e);
                    },
                }
                i += 1;
            }
            Ok(true)
        },
        _ => Err(PyError::TypeError),
    }
}

/// Equality is reflexive: wherever comparing a value with itself is defined
/// at all, it holds.
pub proof fn lemma_eq_reflexive(a: Arena, x: PyObjectRef, fuel: nat)
    ensures
        eq_spec(a, x, x, fuel) matches Ok(b) ==> b,
    decreases fuel, 0int,
{
    if fuel > 0 && a.live(x) {
        match a.obj(x).kind {
            PyObjectKind::List { elements } => {
                lemma_eq_elems_reflexive(a, elements@, 0, (fuel - 1) as nat);
            },
            _ => {},
        }
    }
}

proof fn lemma_eq_elems_reflexive(a: Arena, xs: Seq<PyObjectRef>, i: int, fuel: nat)
    ensures
        eq_elems(a, xs, xs, i, fuel) matches Ok(b) ==> b,
    decreases fuel, xs.len() - i,
{
    if i < xs.len() {
        lemma_eq_reflexive(a, xs[i], fuel);
        lemma_eq_elems_reflexive(a, xs, i + 1, fuel);
    }
}

/// Equality is symmetric: both orders of the same pair of handles give the
/// same verdict — the same boolean, or the same typed failure.
pub proof fn lemma_eq_symmetric(a: Arena, x: PyObjectRef, y: PyObjectRef, fuel: nat)
    ensures
        eq_spec(a, x, y, fuel) == eq_spec(a, y, x, fuel),
    decreases fuel, 0int,
{
    if fuel > 0 && a.live(x) && a.live(y) {
        match (a.obj(x).kind, a.obj(y).kind) {
            (PyObjectKind::List { elements: e1 }, PyObjectKind::List { elements: e2 }) => {
                if e1@.len() == e2@.len() {
                    lemma_eq_elems_symmetric(a, e1@, e2@, 0, (fuel - 1) as nat);
                }
            },
            _ => {},
        }
    }
}

proof fn lemma_eq_elems_symmetric(
    a: Arena,
    xs: Seq<PyObjectRef>,
    ys: Seq<PyObjectRef>,
    i: int,
    fuel: nat,
)
    requires
        xs.len() == ys.len(),
    ensures
        eq_elems(a, xs, ys, i, fuel) == eq_elems(a, ys, xs, i, fuel),
    decreases fuel, xs.len() - i,
{
    if i < xs.len() {
        lemma_eq_symmetric(a, xs[i], ys[i], fuel);
        lemma_eq_elems_symmetric(a, xs, ys, i + 1, fuel);
    }
}

} // verus!
