//! Arithmetic operator dispatch: flat, total functions over the pair of
//! operand kinds. Supported pairs produce a result kind; every other pair is
//! a `TypeError` through the ordinary result channel. Integer arithmetic is
//! checked: leaving the representable range is an `OverflowError`, never a
//! silent wraparound. The table is deliberately flat — a later per-type
//! method-slot dispatch can be consulted as a fallback by callers without
//! changing these functions.
use vstd::prelude::*;

use crate::object::PyError;
use crate::object::PyObject;
use crate::object::PyObjectKind;
use crate::object::PyObjectRef;
use crate::text::push_str;

verus! {

/// Checked 32-bit signed sum: the mathematical sum if it is representable,
/// `OverflowError` otherwise.
pub open spec fn int_add_result(x: int, y: int) -> Result<PyObjectKind, PyError> {
    if i32::MIN <= x + y <= i32::MAX {
        Ok(PyObjectKind::Integer { value: (x + y) as i32 })
    } else {
        Err(PyError::OverflowError)
    }
}

/// Checked 32-bit signed difference.
pub open spec fn int_sub_result(x: int, y: int) -> Result<PyObjectKind, PyError> {
    if i32::MIN <= x - y <= i32::MAX {
        Ok(PyObjectKind::Integer { value: (x - y) as i32 })
    } else {
        Err(PyError::OverflowError)
    }
}

/// Checked 32-bit signed product.
pub open spec fn int_mul_result(x: int, y: int) -> Result<PyObjectKind, PyError> {
    if i32::MIN <= x * y <= i32::MAX {
        Ok(PyObjectKind::Integer { value: (x * y) as i32 })
    } else {
        Err(PyError::OverflowError)
    }
}

/// Division truncated toward zero, defined for `y != 0`.
pub open spec fn trunc_div(x: int, y: int) -> int {
    let q = (if x >= 0 { x } else { -x }) / (if y >= 0 { y } else { -y });
    if (x < 0) != (y < 0) {
        -q
    } else {
        q
    }
}

/// Truncating 32-bit signed division: `DivisionByZeroError` for a zero
/// divisor; the one overflowing quotient is an `OverflowError`.
pub open spec fn int_div_result(x: int, y: int) -> Result<PyObjectKind, PyError> {
    if y == 0 {
        Err(PyError::DivisionByZeroError)
    } else if x == i32::MIN && y == -1 {
        Err(PyError::OverflowError)
    } else {
        Ok(PyObjectKind::Integer { value: trunc_div(x, y) as i32 })
    }
}

/// `s` repeated `n` times; empty for `n <= 0`.
pub open spec fn repeat_seq(s: Seq<char>, n: int) -> Seq<char>
    decreases n,
{
    if n <= 0 {
        Seq::empty()
    } else {
        repeat_seq(s, n - 1) + s
    }
}

impl PyObject {
    /// The `add` operator. Integers add checked; strings concatenate; lists
    /// concatenate element-wise, left elements first, order preserved; every
    /// other pair of kinds is a `TypeError`.
    pub fn add(x: &PyObject, y: &PyObject) -> (r: Result<PyObjectKind, PyError>)
        ensures
            match (x.kind, y.kind) {
                (
                    PyObjectKind::Integer { value: v1 },
                    PyObjectKind::Integer { value: v2 },
                ) => r == int_add_result(v1 as int, v2 as int),
                (
                    PyObjectKind::String { value: s1 },
                    PyObjectKind::String { value: s2 },
                ) => (r matches Ok(PyObjectKind::String { value }) && value@ == s1@ + s2@),
                (
                    PyObjectKind::List { elements: e1 },
                    PyObjectKind::List { elements: e2 },
                ) => (r matches Ok(PyObjectKind::List { elements }) && elements@ == e1@ + e2@),
                _ => r == Err::<PyObjectKind, PyError>(PyError::TypeError),
            },
    {
        match (&x.kind, &y.kind) {
            (PyObjectKind::Integer { value: v1 }, PyObjectKind::Integer { value: v2 }) => {
                let a = *v1;
                let b = *v2;
                if (b > 0 && a > i32::MAX - b) || (b < 0 && a < i32::MIN - b) {
                    Err(PyError::OverflowError)
                } else {
                    Ok(PyObjectKind::Integer { value: a + b })
                }
            },
            (PyObjectKind::String { value: v1 }, PyObjectKind::String { value: v2 }) => {
                let mut value = v1.clone();
                push_str(&mut value, v2.as_str());
                Ok(PyObjectKind::String { value })
            },
            (PyObjectKind::List { elements: e1 }, PyObjectKind::List { elements: e2 }) => {
                let mut elements: Vec<PyObjectRef> = Vec::new();
                let mut i: usize = 0;
                while i < e1.len()
                    invariant
                        i <= e1.len(),
                        elements@ == e1@.subrange(0, i as int),
                    decreases e1.len() - i,
                {
                    elements.push(e1[i]);
                    i += 1;
                }
                let mut j: usize = 0;
                while j < e2.len()
                    invariant
                        j <= e2.len(),
                        elements@ == e1@.subrange(0, e1@.len() as int) + e2@.subrange(
                            0,
                            j as int,
                        ),
                    decreases e2.len() - j,
                {
                    elements.push(e2[j]);
                    j += 1;
                }
                proof {
                    assert(elements@ =~= e1@ + e2@);
                }
                Ok(PyObjectKind::List { elements })
            },
            _ => Err(PyError::TypeError),
        }
    }

    /// The `sub` operator: defined for integer pairs only, checked.
    pub fn sub(x: &PyObject, y: &PyObject) -> (r: Result<PyObjectKind, PyError>)
        ensures
            match (x.kind, y.kind) {
                (
                    PyObjectKind::Integer { value: v1 },
                    PyObjectKind::Integer { value: v2 },
                ) => r == int_sub_result(v1 as int, v2 as int),
                _ => r == Err::<PyObjectKind, PyError>(PyError::TypeError),
            },
    {
        match (&x.kind, &y.kind) {
            (PyObjectKind::Integer { value: v1 }, PyObjectKind::Integer { value: v2 }) => {
                let a = *v1;
                let b = *v2;
                if (b > 0 && a < i32::MIN + b) || (b < 0 && a > i32::MAX + b) {
                    Err(PyError::OverflowError)
                } else {
                    Ok(PyObjectKind::Integer { value: a - b })
                }
            },
            _ => Err(PyError::TypeError),
        }
    }

    /// The `mul` operator. Integer pairs multiply checked; a string times an
    /// integer repeats the string (a count of zero or less gives the empty
    /// string); every other pair is a `TypeError`.
    pub fn mul(x: &PyObject, y: &PyObject) -> (r: Result<PyObjectKind, PyError>)
        ensures
            match (x.kind, y.kind) {
                (
                    PyObjectKind::Integer { value: v1 },
                    PyObjectKind::Integer { value: v2 },
                ) => r == int_mul_result(v1 as int, v2 as int),
                (
                    PyObjectKind::String { value: s1 },
                    PyObjectKind::Integer { value: v2 },
                ) => (r matches Ok(PyObjectKind::String { value }) && value@ == repeat_seq(
                    s1@,
                    v2 as int,
                )),
                _ => r == Err::<PyObjectKind, PyError>(PyError::TypeError),
            },
    {
        match (&x.kind, &y.kind) {
            (PyObjectKind::Integer { value: v1 }, PyObjectKind::Integer { value: v2 }) => {
                let a = *v1 as i64;
                let b = *v2 as i64;
                proof {
                    assert(i64::MIN <= a * b <= i64::MAX) by (nonlinear_arith)
                        requires
                            -0x8000_0000 <= a <= 0x7fff_ffff,
                            -0x8000_0000 <= b <= 0x7fff_ffff,
                    ;
                }
                let p = a * b;
                if p < i32::MIN as i64 || p > i32::MAX as i64 {
                    Err(PyError::OverflowError)
                } else {
                    Ok(PyObjectKind::Integer { value: p as i32 })
                }
            },
            (PyObjectKind::String { value: s1 }, PyObjectKind::Integer { value: v2 }) => {
                let count = *v2;
                let mut value = String::new();
                let mut k: i32 = 0;
                while k < count
                    invariant
                        0 <= k,
                        k <= (if count > 0 { count as int } else { 0 }),
                        value@ == repeat_seq(s1@, k as int),
                    decreases count - k,
                {
                    push_str(&mut value, s1.as_str());
                    k += 1;
                }
                proof {
                    if count <= 0 {
                        assert(repeat_seq(s1@, count as int) == repeat_seq(s1@, 0));
                    }
                }
                Ok(PyObjectKind::String { value })
            },
            _ => Err(PyError::TypeError),
        }
    }

    /// The `div` operator: truncating integer division of integer pairs.
    /// A zero divisor is a `DivisionByZeroError`; the one quotient that does
    /// not fit is an `OverflowError`; every other pair is a `TypeError`.
    pub fn div(x: &PyObject, y: &PyObject) -> (r: Result<PyObjectKind, PyError>)
        ensures
            match (x.kind, y.kind) {
                (
                    PyObjectKind::Integer { value: v1 },
                    PyObjectKind::Integer { value: v2 },
                ) => r == int_div_result(v1 as int, v2 as int),
                _ => r == Err::<PyObjectKind, PyError>(PyError::TypeError),
            },
    {
        match (&x.kind, &y.kind) {
            (PyObjectKind::Integer { value: v1 }, PyObjectKind::Integer { value: v2 }) => {
                let a = *v1;
                let b = *v2;
                if b == 0 {
                    Err(PyError::DivisionByZeroError)
                } else if a == i32::MIN && b == -1 {
                    Err(PyError::OverflowError)
                } else {
                    let am: i64 = if a < 0 { -(a as i64) } else { a as i64 };
                    let bm: i64 = if b < 0 { -(b as i64) } else { b as i64 };
                    let q = am / bm;
                    proof {
                        assert(q <= am) by (nonlinear_arith)
                            requires
                                am >= 0,
                                bm >= 1,
                                q == am / bm,
                        ;
                    }
                    let signed: i64 = if (a < 0) != (b < 0) { -q } else { q };
                    Ok(PyObjectKind::Integer { value: signed as i32 })
                }
            },
            _ => Err(PyError::TypeError),
        }
    }
}

/// Addition of integer values is commutative: for every pair of
/// representable integers, both orders give the same sum or the same
/// overflow failure. Together with `add`'s contract, which ties the
/// integer/integer case to `int_add_result`, this is commutativity of the
/// `add` operator on integers.
pub proof fn lemma_add_commutative(x: i32, y: i32)
    ensures
        int_add_result(x as int, y as int) == int_add_result(y as int, x as int),
{
}

/// String concatenation is associative. Together with `add`'s contract,
/// which ties the string/string case to concatenation of the two views,
/// grouping does not matter when adding strings.
pub proof fn lemma_concat_associative(x: Seq<char>, y: Seq<char>, z: Seq<char>)
    ensures
        (x + y) + z == x + (y + z),
{
    assert((x + y) + z =~= x + (y + z));
}

} // verus!
