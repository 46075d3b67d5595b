//! The universal text rendering (`str`) of every kind of object. Containers
//! render by rendering their elements recursively and joining with a fixed
//! separator and bracket style per kind; every kind has a rendering — there
//! is no terminating fallback.
//!
//! The walk carries recursion fuel sized to the arena: a cyclic or
//! impossibly deep object graph, or a stale handle anywhere in it, surfaces
//! as a `ValueError` through the ordinary result channel.
use vstd::prelude::*;

use crate::arena::Arena;
use crate::object::PyError;
use crate::object::PyObject;
use crate::object::PyObjectKind;
use crate::object::PyObjectRef;
use crate::text::dec_digits;
use crate::text::int_digits;
use crate::text::push_dec;
use crate::text::push_int;
use crate::text::push_str;

verus! {

/// Rendering of one optional integer bound of a slice.
pub open spec fn opt_int_digits(o: Option<i32>) -> Seq<char> {
    match o {
        Option::Some(i) => "Some("@ + int_digits(i as int) + ")"@,
        Option::None => "None"@,
    }
}

/// The text the object behind `r` renders to, with `fuel` bounding the
/// nesting depth that may be walked.
pub open spec fn render_spec(a: Arena, r: PyObjectRef, fuel: nat) -> Result<Seq<char>, PyError>
    decreases fuel, 0int,
{
    if fuel == 0 {
        Err(PyError::ValueError)
    } else if !a.live(r) {
        Err(PyError::ValueError)
    } else {
        match a.obj(r).kind {
            PyObjectKind::String { value } => Ok(value@),
            PyObjectKind::Integer { value } => Ok(int_digits(value as int)),
            PyObjectKind::Boolean { value } => Ok(if value { "true"@ } else { "false"@ }),
            PyObjectKind::List { elements } => match render_items(
                a,
                elements@,
                elements@.len() as int,
                (fuel - 1) as nat,
            ) {
                Ok(s) => Ok("["@ + s + "]"@),
                Err(e) => Err(e),
            },
            PyObjectKind::Tuple { elements } => match render_items(
                a,
                elements@,
                elements@.len() as int,
                (fuel - 1) as nat,
            ) {
                Ok(s) => Ok("{"@ + s + "}"@),
                Err(e) => Err(e),
            },
            PyObjectKind::Dict { elements } => match render_entries(
                a,
                elements@,
                elements@.len() as int,
                (fuel - 1) as nat,
            ) {
                Ok(s) => Ok("{"@ + s + "}"@),
                Err(e) => Err(e),
            },
            PyObjectKind::Iterator { position, iterated_obj } => match render_spec(
                a,
                iterated_obj,
                (fuel - 1) as nat,
            ) {
                Ok(s) => Ok("<iter pos "@ + dec_digits(position as nat) + " in "@ + s + ">"@),
                Err(e) => Err(e),
            },
            PyObjectKind::Slice { start, stop, step } => Ok(
                "<slice '"@ + opt_int_digits(start) + ":"@ + opt_int_digits(stop) + ":"@
                    + opt_int_digits(step) + "'>"@,
            ),
            PyObjectKind::NameError { name } => Ok("<NameError '"@ + name@ + "'>"@),
            PyObjectKind::Code { .. } => Ok("<code>"@),
            PyObjectKind::Function { .. } => Ok("<func>"@),
            PyObjectKind::Module { name } => Ok("<module '"@ + name@ + "'>"@),
            PyObjectKind::NoneValue => Ok("None"@),
            PyObjectKind::Class { name } => Ok("<class '"@ + name@ + "'>"@),
            PyObjectKind::RustFunction { .. } => Ok("<rustfunc>"@),
        }
    }
}

/// The first `i` elements rendered and joined with `", "`, left to right,
/// stopping at the first failure.
pub open spec fn render_items(a: Arena, elems: Seq<PyObjectRef>, i: int, fuel: nat) -> Result<
    Seq<char>,
    PyError,
>
    decreases fuel, i,
{
    if i <= 0 {
        Ok(Seq::empty())
    } else {
        match render_items(a, elems, i - 1, fuel) {
            Ok(pre) => match render_spec(a, elems[i - 1], fuel) {
                Ok(s) => Ok(if i == 1 { s } else { pre + ", "@ + s }),
                Err(e) => Err(e),
            },
            Err(e) => Err(e),
        }
    }
}

/// The first `i` attribute-style entries rendered as `key: value` and joined
/// with `", "`, left to right, stopping at the first failure.
pub open spec fn render_entries(
    a: Arena,
    entries: Seq<(String, PyObjectRef)>,
    i: int,
    fuel: nat,
) -> Result<Seq<char>, PyError>
    decreases fuel, i,
{
    if i <= 0 {
        Ok(Seq::empty())
    } else {
        match render_entries(a, entries, i - 1, fuel) {
            Ok(pre) => match render_spec(a, entries[i - 1].1, fuel) {
                Ok(s) => Ok(
                    if i == 1 {
                        entries[0].0@ + ": "@ + s
                    } else {
                        pre + ", "@ + entries[i - 1].0@ + ": "@ + s
                    },
                ),
                Err(e) => Err(e),
            },
            Err(e) => Err(e),
        }
    }
}

/// A failed prefix stays failed: once rendering the first `j0` items has
/// failed, rendering any longer prefix reports the same failure.
proof fn lemma_items_propagate(a: Arena, elems: Seq<PyObjectRef>, j0: int, j1: int, fuel: nat)
    requires
        0 <= j0 <= j1,
        render_items(a, elems, j0, fuel) is Err,
    ensures
        render_items(a, elems, j1, fuel) == render_items(a, elems, j0, fuel),
    decreases j1 - j0,
{
    if j1 > j0 {
        lemma_items_propagate(a, elems, j0, j1 - 1, fuel);
    }
}

/// As `lemma_items_propagate`, for dictionary entries.
proof fn lemma_entries_propagate(
    a: Arena,
    entries: Seq<(String, PyObjectRef)>,
    j0: int,
    j1: int,
    fuel: nat,
)
    requires
        0 <= j0 <= j1,
        render_entries(a, entries, j0, fuel) is Err,
    ensures
        render_entries(a, entries, j1, fuel) == render_entries(a, entries, j0, fuel),
    decreases j1 - j0,
{
    if j1 > j0 {
        lemma_entries_propagate(a, entries, j0, j1 - 1, fuel);
    }
}

impl PyObject {
    /// Render the object behind `r` to text. Every kind renders: primitives
    /// by value, lists as `[e1, e2]`, tuples as `{e1, e2}`, mappings as
    /// `{k1: v1, k2: v2}`, and the named and stateful kinds in an angle-
    /// bracketed form carrying their name or state.
    pub fn str(arena: &Arena, r: &PyObjectRef) -> (res: Result<String, PyError>)
        ensures
            match (render_spec(*arena, *r, arena.slot_count()), res) {
                (Ok(s), Ok(t)) => t@ == s,
                (Err(e1), Err(e2)) => e1 == e2,
                _ => false,
            },
    {
        let fuel = arena.slot_len();
        render_rec(arena, r, fuel)
    }
}

fn render_rec(arena: &Arena, r: &PyObjectRef, fuel: usize) -> (res: Result<String, PyError>)
    ensures
        match (render_spec(*arena, *r, fuel as nat), res) {
            (Ok(s), Ok(t)) => t@ == s,
            (Err(e1), Err(e2)) => e1 == e2,
            _ => false,
        },
    decreases fuel, 0int,
{
    if fuel == 0 {
        return Err(PyError::ValueError);
    }
    if !arena.is_live(r) {
        return Err(PyError::ValueError);
    }
    match &arena.get(r).kind {
        PyObjectKind::String { value } => Ok(value.clone()),
        PyObjectKind::Integer { value } => {
            let mut out = String::new();
            push_int(&mut out, *value);
            Ok(out)
        },
        PyObjectKind::Boolean { value } => {
            if *value {
                Ok("true".to_owned())
            } else {
                Ok("false".to_owned())
            }
        },
        PyObjectKind::List { elements } => {
            match render_items_exec(arena, elements, fuel - 1) {
                Ok(body) => {
                    let mut out = String::new();
                    push_str(&mut out, "[");
                    push_str(&mut out, body.as_str());
                    push_str(&mut out, "]");
                    Ok(out)
                },
                Err(e) => Err(e),
            }
        },
        PyObjectKind::Tuple { elements } => {
            match render_items_exec(arena, elements, fuel - 1) {
                Ok(body) => {
                    let mut out = String::new();
                    push_str(&mut out, "{");
                    push_str(&mut out, body.as_str());
                    push_str(&mut out, "}");
                    Ok(out)
                },
                Err(e) => Err(e),
            }
        },
        PyObjectKind::Dict { elements } => {
            match render_entries_exec(arena, elements, fuel - 1) {
                Ok(body) => {
                    let mut out = String::new();
                    push_str(&mut out, "{");
                    push_str(&mut out, body.as_str());
                    push_str(&mut out, "}");
                    Ok(out)
                },
                Err(e) => Err(e),
            }
        },
        PyObjectKind::Iterator { position, iterated_obj } => {
            let pos = *position;
            let target = *iterated_obj;
            match render_rec(arena, &target, fuel - 1) {
                Ok(body) => {
                    let mut out = String::new();
                    push_str(&mut out, "<iter pos ");
                    push_dec(&mut out, pos as u64);
                    push_str(&mut out, " in ");
                    push_str(&mut out, body.as_str());
                    push_str(&mut out, ">");
                    Ok(out)
                },
                Err(e) => Err(e),
            }
        },
        PyObjectKind::Slice { start, stop, step } => {
            let mut out = String::new();
            push_str(&mut out, "<slice '");
            push_opt_int(&mut out, start);
            push_str(&mut out, ":");
            push_opt_int(&mut out, stop);
            push_str(&mut out, ":");
            push_opt_int(&mut out, step);
            push_str(&mut out, "'>");
            Ok(out)
        },
        PyObjectKind::NameError { name } => {
            let mut out = String::new();
            push_str(&mut out, "<NameError '");
            push_str(&mut out, name.as_str());
            push_str(&mut out, "'>");
            Ok(out)
        },
        PyObjectKind::Code { .. } => Ok("<code>".to_owned()),
        PyObjectKind::Function { .. } => Ok("<func>".to_owned()),
        PyObjectKind::Module { name } => {
            let mut out = String::new();
            push_str(&mut out, "<module '");
            push_str(&mut out, name.as_str());
            push_str(&mut out, "'>");
            Ok(out)
        },
        PyObjectKind::NoneValue => Ok("None".to_owned()),
        PyObjectKind::Class { name } => {
            let mut out = String::new();
            push_str(&mut out, "<class '");
            push_str(&mut out, name.as_str());
            push_str(&mut out, "'>");
            Ok(out)
        },
        PyObjectKind::RustFunction { .. } => Ok("<rustfunc>".to_owned()),
    }
}

fn render_items_exec(arena: &Arena, elems: &Vec<PyObjectRef>, fuel: usize) -> (res: Result<
    String,
    PyError,
>)
    ensures
        match (render_items(*arena, elems@, elems@.len() as int, fuel as nat), res) {
            (Ok(s), Ok(t)) => t@ == s,
            (Err(e1), Err(e2)) => e1 == e2,
            _ => false,
        },
    decreases fuel, 1int,
{
    let mut out = String::new();
    let mut i: usize = 0;
    while i < elems.len()
        invariant
            i <= elems@.len(),
            (render_items(*arena, elems@, i as int, fuel as nat) matches Ok(p) && out@ == p),
        decreases elems@.len() - i,
    {
        match render_rec(arena, &elems[i], fuel) {
            Ok(t) => {
                if i > 0 {
                    push_str(&mut out, ", ");
                }
                push_str(&mut out, t.as_str());
            },
            Err(e) => {
                proof {
                    lemma_items_propagate(
                        *arena,
                        elems@,
                        i as int + 1,
                        elems@.len() as int,
                        fuel as nat,
                    );
                }
                return Err(e);
            },
        }
        i += 1;
    }
    Ok(out)
}

fn render_entries_exec(arena: &Arena, entries: &Vec<(String, PyObjectRef)>, fuel: usize) -> (res:
    Result<String, PyError>)
    ensures
        match (render_entries(*arena, entries@, entries@.len() as int, fuel as nat), res) {
            (Ok(s), Ok(t)) => t@ == s,
            (Err(e1), Err(e2)) => e1 == e2,
            _ => false,
        },
    decreases fuel, 1int,
{
    let mut out = String::new();
    let mut i: usize = 0;
    while i < entries.len()
        invariant
            i <= entries@.len(),
            (render_entries(*arena, entries@, i as int, fuel as nat) matches Ok(p) && out@ == p),
        decreases entries@.len() - i,
    {
        match render_rec(arena, &entries[i].1, fuel) {
            Ok(t) => {
                if i > 0 {
                    push_str(&mut out, ", ");
                }
                push_str(&mut out, entries[i].0.as_str());
                push_str(&mut out, ": ");
                push_str(&mut out, t.as_str());
            },
            Err(e) => {
                proof {
                    lemma_entries_propagate(
                        *arena,
                        entries@,
                        i as int + 1,
                        entries@.len() as int,
                        fuel as nat,
                    );
                }
                return Err(e);
            },
        }
        i += 1;
    }
    Ok(out)
}

fn push_opt_int(s: &mut String, o: &Option<i32>)
    ensures
        final(s)@ == old(s)@ + opt_int_digits(*o),
{
    match o {
        Option::Some(i) => {
            push_str(s, "Some(");
            push_int(s, *i);
            push_str(s, ")");
        },
        Option::None => {
            push_str(s, "None");
        },
    }
}

} // verus!
