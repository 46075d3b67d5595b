use pyobjects::arena::Arena;
use pyobjects::call::Executor;
use pyobjects::context::PyContext;
use pyobjects::object::PyError;
use pyobjects::object::PyObject;
use pyobjects::object::PyObjectKind;
use pyobjects::object::PyObjectRef;
use pyobjects::object::PyResult;

fn int_value(arena: &Arena, r: &PyObjectRef) -> i32 {
    match arena.get(r).kind {
        PyObjectKind::Integer { value } => value,
        _ => panic!("expected an integer object"),
    }
}

#[test]
fn iterating_a_list_yields_in_order_then_exhausts() {
    let mut arena = Arena::new();
    let ctx = PyContext::new(&mut arena);
    let a = ctx.new_int(&mut arena, 10);
    let b = ctx.new_int(&mut arena, 20);
    let c = ctx.new_int(&mut arena, 30);
    let list = PyObject::new(
        &mut arena,
        PyObjectKind::List { elements: vec![a, b, c] },
        ctx.type_type,
    );
    let it = PyObject::new(
        &mut arena,
        PyObjectKind::Iterator { position: 0, iterated_obj: list },
        ctx.type_type,
    );
    let first = PyObject::nxt(&mut arena, &it).unwrap().unwrap();
    assert_eq!(int_value(&arena, &first), 10);
    let second = PyObject::nxt(&mut arena, &it).unwrap().unwrap();
    assert_eq!(int_value(&arena, &second), 20);
    let third = PyObject::nxt(&mut arena, &it).unwrap().unwrap();
    assert_eq!(int_value(&arena, &third), 30);
    assert_eq!(PyObject::nxt(&mut arena, &it), Ok(None));
    // exhaustion is terminal and idempotent
    assert_eq!(PyObject::nxt(&mut arena, &it), Ok(None));
}

#[test]
fn iterating_an_empty_list_exhausts_at_once() {
    let mut arena = Arena::new();
    let ctx = PyContext::new(&mut arena);
    let list = PyObject::new(
        &mut arena,
        PyObjectKind::List { elements: vec![] },
        ctx.type_type,
    );
    let it = PyObject::new(
        &mut arena,
        PyObjectKind::Iterator { position: 0, iterated_obj: list },
        ctx.type_type,
    );
    assert_eq!(PyObject::nxt(&mut arena, &it), Ok(None));
}

#[test]
fn unsupported_iteration_is_reported() {
    let mut arena = Arena::new();
    let ctx = PyContext::new(&mut arena);
    let five = ctx.new_int(&mut arena, 5);
    // advancing a non-iterator object
    assert_eq!(
        PyObject::nxt(&mut arena, &five),
        Err(PyError::UnsupportedIterationError)
    );
    // advancing an iterator over a non-sequence target
    let it = PyObject::new(
        &mut arena,
        PyObjectKind::Iterator { position: 0, iterated_obj: five },
        ctx.type_type,
    );
    assert_eq!(
        PyObject::nxt(&mut arena, &it),
        Err(PyError::UnsupportedIterationError)
    );
}

#[test]
fn mutating_the_target_mid_iteration_is_observable() {
    let mut arena = Arena::new();
    let ctx = PyContext::new(&mut arena);
    let a = ctx.new_int(&mut arena, 10);
    let list = PyObject::new(
        &mut arena,
        PyObjectKind::List { elements: vec![a] },
        ctx.type_type,
    );
    let it = PyObject::new(
        &mut arena,
        PyObjectKind::Iterator { position: 0, iterated_obj: list },
        ctx.type_type,
    );
    let first = PyObject::nxt(&mut arena, &it).unwrap().unwrap();
    assert_eq!(int_value(&arena, &first), 10);
    assert_eq!(PyObject::nxt(&mut arena, &it), Ok(None));
    // growing the target revives the same iterator: no length snapshot exists
    let b = ctx.new_int(&mut arena, 20);
    arena.list_push(&list, b);
    let second = PyObject::nxt(&mut arena, &it).unwrap().unwrap();
    assert_eq!(int_value(&arena, &second), 20);
    assert_eq!(PyObject::nxt(&mut arena, &it), Ok(None));
}

struct MiniExecutor {
    ctx: PyContext,
    none: PyObjectRef,
}

impl Executor for MiniExecutor {
    fn call(&mut self, _arena: &mut Arena, f: PyObjectRef) -> PyResult {
        Ok(f)
    }

    fn invoke_native(
        &mut self,
        arena: &mut Arena,
        function: u64,
        args: Vec<PyObjectRef>,
    ) -> PyResult {
        match function {
            0 => Ok(args[0]),
            1 => Ok(self.ctx.new_int(arena, 2 * int_value(arena, &args[0]))),
            _ => Err(self.none),
        }
    }

    fn new_str(&self, arena: &mut Arena, s: String) -> PyObjectRef {
        self.ctx.new_str(arena, s)
    }

    fn new_bool(&self, arena: &mut Arena, b: bool) -> PyObjectRef {
        self.ctx.new_bool(arena, b)
    }

    fn get_none(&self) -> PyObjectRef {
        self.none
    }

    fn get_type(&self) -> PyObjectRef {
        self.ctx.type_type
    }

    fn context(&self) -> &PyContext {
        &self.ctx
    }
}

#[test]
fn native_callables_run_through_the_executor() {
    let mut arena = Arena::new();
    let ctx = PyContext::new(&mut arena);
    let none = PyObject::new(&mut arena, PyObjectKind::NoneValue, ctx.type_type);
    let mut rt = MiniExecutor { ctx, none };
    let doubler = PyObject::new(
        &mut arena,
        PyObjectKind::RustFunction { function: 1 },
        rt.ctx.type_type,
    );
    let five = rt.ctx.new_int(&mut arena, 5);
    let out = PyObject::call(&mut arena, &doubler, &mut rt, vec![five])
        .unwrap()
        .unwrap();
    assert_eq!(int_value(&arena, &out), 10);
    // a failing native callable propagates its exception value, not an abort
    let failing = PyObject::new(
        &mut arena,
        PyObjectKind::RustFunction { function: 9 },
        rt.ctx.type_type,
    );
    let out = PyObject::call(&mut arena, &failing, &mut rt, vec![five]).unwrap();
    assert_eq!(out, Err(none));
}

#[test]
fn invoking_a_non_callable_is_distinct() {
    let mut arena = Arena::new();
    let ctx = PyContext::new(&mut arena);
    let none = PyObject::new(&mut arena, PyObjectKind::NoneValue, ctx.type_type);
    let five = ctx.new_int(&mut arena, 5);
    let mut rt = MiniExecutor { ctx, none };
    assert_eq!(
        PyObject::call(&mut arena, &five, &mut rt, vec![]),
        Err(PyError::NotCallableError)
    );
    arena.free(&five);
    assert_eq!(
        PyObject::call(&mut arena, &five, &mut rt, vec![]),
        Err(PyError::ValueError)
    );
}
