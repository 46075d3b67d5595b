//! The open attribute table: text-keyed, unique-keyed storage on every
//! object — the extension point used before a full method-resolution system
//! exists. Reading and writing attributes go through the ordinary
//! two-outcome channel; a stale handle is a `ValueError`.
use vstd::prelude::*;

use crate::arena::Arena;
use crate::object::PyError;
use crate::object::PyObject;
use crate::object::PyObjectRef;

verus! {

/// The value stored under `name`, looking from entry `i` on: the first (and,
/// with unique keys, the only) entry whose key is `name`.
pub open spec fn attr_from(
    entries: Seq<(String, PyObjectRef)>,
    i: int,
    name: Seq<char>,
) -> Option<PyObjectRef>
    decreases entries.len() - i,
{
    if i < 0 || i >= entries.len() {
        Option::None
    } else if entries[i].0@ == name {
        Option::Some(entries[i].1)
    } else {
        attr_from(entries, i + 1, name)
    }
}

/// The value stored under `name` in an attribute table.
pub open spec fn attr_lookup(entries: Seq<(String, PyObjectRef)>, name: Seq<char>) -> Option<
    PyObjectRef,
> {
    attr_from(entries, 0, name)
}

/// Writing under one key leaves every lookup under any other key unchanged,
/// and the written key afterwards holds the written value: the pointwise
/// description of an in-place update.
proof fn lemma_update_lookup(
    d1: Seq<(String, PyObjectRef)>,
    d2: Seq<(String, PyObjectRef)>,
    name: Seq<char>,
    value: PyObjectRef,
    i: int,
)
    requires
        d2.len() == d1.len(),
        forall|j: int|
            0 <= j < d1.len() ==> (#[trigger] d2[j]).0@ == d1[j].0@ && d2[j].1 == (if d1[j].0@
                == name {
                value
            } else {
                d1[j].1
            }),
    ensures
        attr_from(d2, i, name) == (match attr_from(d1, i, name) {
            Option::Some(_) => Option::Some(value),
            Option::None => Option::None::<PyObjectRef>,
        }),
        forall|n: Seq<char>| n != name ==> attr_from(d2, i, n) == attr_from(d1, i, n),
    decreases d1.len() - i,
{
    if 0 <= i < d1.len() {
        lemma_update_lookup(d1, d2, name, value, i + 1);
        assert forall|n: Seq<char>| n != name implies attr_from(d2, i, n) == attr_from(
            d1,
            i,
            n,
        ) by {
            assert(attr_from(d2, i + 1, n) == attr_from(d1, i + 1, n));
        }
    } else {
        assert forall|n: Seq<char>| n != name implies attr_from(d2, i, n) == attr_from(
            d1,
            i,
            n,
        ) by {
            assert(attr_from(d2, i, n) is None);
            assert(attr_from(d1, i, n) is None);
        }
    }
}

/// A lookup finds a value exactly when some entry from `i` on carries the
/// key.
proof fn lemma_found_iff(d: Seq<(String, PyObjectRef)>, i: int, name: Seq<char>)
    requires
        0 <= i,
    ensures
        attr_from(d, i, name) is Some <==> exists|j: int|
            i <= j < d.len() && (#[trigger] d[j]).0@ == name,
    decreases d.len() - i,
{
    if i < d.len() {
        lemma_found_iff(d, i + 1, name);
    }
}

/// Appending an entry whose key no existing entry carries: the new key then
/// holds the appended value and every other lookup is unchanged.
proof fn lemma_push_lookup(
    d1: Seq<(String, PyObjectRef)>,
    entry: (String, PyObjectRef),
    i: int,
)
    requires
        forall|j: int| 0 <= j < d1.len() ==> (#[trigger] d1[j]).0@ != entry.0@,
    ensures
        0 <= i <= d1.len() ==> attr_from(d1.push(entry), i, entry.0@) == Option::Some(entry.1),
        forall|n: Seq<char>|
            n != entry.0@ ==> attr_from(d1.push(entry), i, n) == attr_from(d1, i, n),
    decreases d1.len() + 1 - i,
{
    if i < d1.len() + 1 {
        lemma_push_lookup(d1, entry, i + 1);
    }
    assert forall|n: Seq<char>|
        n != entry.0@ implies attr_from(d1.push(entry), i, n) == attr_from(d1, i, n) by {
        if 0 <= i < d1.len() + 1 {
            assert(attr_from(d1.push(entry), i + 1, n) == attr_from(d1, i + 1, n));
            if i < d1.len() {
                assert(d1.push(entry)[i] == d1[i]);
            }
        }
    }
}

impl PyObject {
    /// Read the attribute stored under `name` on the object behind `r`:
    /// its value, `None` where the object has no such attribute, and
    /// `ValueError` for a stale handle.
    pub fn get_attr(arena: &Arena, r: &PyObjectRef, name: &String) -> (res: Result<
        Option<PyObjectRef>,
        PyError,
    >)
        ensures
            res == (if arena.live(*r) {
                Ok::<Option<PyObjectRef>, PyError>(attr_lookup(arena.obj(*r).dict@, name@))
            } else {
                Err::<Option<PyObjectRef>, PyError>(PyError::ValueError)
            }),
    {
        if !arena.is_live(r) {
            return Err(PyError::ValueError);
        }
        let entries = &arena.get(r).dict;
        let mut i: usize = 0;
        while i < entries.len()
            invariant
                arena.live(*r),
                entries@ == arena.obj(*r).dict@,
                i <= entries@.len(),
                attr_from(entries@, 0, name@) == attr_from(entries@, i as int, name@),
            decreases entries@.len() - i,
        {
            if entries[i].0 == *name {
                return Ok(Option::Some(entries[i].1));
            }
            i += 1;
        }
        Ok(Option::None)
    }

    /// Write the attribute `name` on the object behind `r`: replace the
    /// value under an existing key, append a fresh entry otherwise. Every
    /// other attribute, the kind and the type link stay as they were, keys
    /// stay unique, and every other object is untouched. A stale handle is
    /// a `ValueError`.
    pub fn set_attr(arena: &mut Arena, r: &PyObjectRef, name: String, value: PyObjectRef) -> (res:
        Result<(), PyError>)
        requires
            old(arena).live(*r) ==> old(arena).obj(*r).dict_wf(),
        ensures
            res is Ok <==> old(arena).live(*r),
            !old(arena).live(*r) ==> *final(arena) == *old(arena) && res == Err::<(), PyError>(
                PyError::ValueError,
            ),
            old(arena).live(*r) ==> {
                &&& old(arena).wf() ==> final(arena).wf()
                &&& final(arena).slot_count() == old(arena).slot_count()
                &&& (forall|q: PyObjectRef| old(arena).live(q) <==> final(arena).live(q))
                &&& (forall|q: PyObjectRef|
                    old(arena).live(q) && q != *r ==> final(arena).obj(q) == old(arena).obj(q))
                &&& final(arena).obj(*r).kind == old(arena).obj(*r).kind
                &&& final(arena).obj(*r).typ == old(arena).obj(*r).typ
                &&& final(arena).obj(*r).dict_wf()
                &&& attr_lookup(final(arena).obj(*r).dict@, name@) == Option::Some(value)
                &&& (forall|n: Seq<char>|
                    n != name@ ==> attr_lookup(final(arena).obj(*r).dict@, n) == attr_lookup(
                        old(arena).obj(*r).dict@,
                        n,
                    ))
            },
    {
        if !arena.is_live(r) {
            return Err(PyError::ValueError);
        }
        let ghost d1 = arena.obj(*r).dict@;
        let n = arena.get(r).dict.len();
        let mut newdict: Vec<(String, PyObjectRef)> = Vec::new();
        let mut found = false;
        let mut i: usize = 0;
        while i < n
            invariant
                *arena == *old(arena),
                arena.live(*r),
                d1 == arena.obj(*r).dict@,
                n == d1.len(),
                i <= n,
                newdict@.len() == i,
                forall|j: int|
                    0 <= j < i ==> (#[trigger] newdict@[j]).0@ == d1[j].0@ && newdict@[j].1 == (
                    if d1[j].0@ == name@ {
                        value
                    } else {
                        d1[j].1
                    }),
                found <==> exists|j: int| 0 <= j < i && (#[trigger] d1[j]).0@ == name@,
            decreases n - i,
        {
            let entries = &arena.get(r).dict;
            let key = entries[i].0.clone();
            let held = entries[i].1;
            if key == name {
                newdict.push((key, value));
                found = true;
            } else {
                newdict.push((key, held));
            }
            i += 1;
        }
        proof {
            lemma_found_iff(d1, 0, name@);
            lemma_update_lookup(d1, newdict@, name@, value, 0);
            assert forall|i2: int, j2: int|
                0 <= i2 < j2 < newdict@.len() implies newdict@[i2].0@ != newdict@[j2].0@ by {
                assert(newdict@[i2].0@ == d1[i2].0@);
                assert(newdict@[j2].0@ == d1[j2].0@);
            }
        }
        if !found {
            let ghost before = newdict@;
            let ghost pushed = (name, value);
            newdict.push((name, value));
            proof {
                assert(forall|j: int| 0 <= j < d1.len() ==> (#[trigger] d1[j]).0@ != name@);
                assert(forall|j: int|
                    0 <= j < before.len() ==> (#[trigger] before[j]).0@ != pushed.0@);
                lemma_push_lookup(before, pushed, 0);
                assert forall|i2: int, j2: int|
                    0 <= i2 < j2 < newdict@.len() implies newdict@[i2].0@ != newdict@[j2].0@ by {
                    if j2 < before.len() {
                        assert(newdict@[i2].0@ == d1[i2].0@);
                        assert(newdict@[j2].0@ == d1[j2].0@);
                    } else {
                        assert(newdict@[j2] == pushed);
                        assert(newdict@[i2].0@ == d1[i2].0@);
                    }
                }
            }
        }
        arena.set_dict(r, newdict);
        Ok(())
    }
}

} // verus!
