use pyobjects::arena::Arena;
use pyobjects::compare::PyOrdering;
use pyobjects::context::PyContext;
use pyobjects::object::CodeObject;
use pyobjects::object::PyError;
use pyobjects::object::PyObject;
use pyobjects::object::PyObjectKind;

#[test]
fn bootstrap_builds_type_objects() {
    let mut arena = Arena::new();
    let ctx = PyContext::new(&mut arena);
    assert!(arena.is_live(&ctx.type_type));
    assert!(arena.is_live(&ctx.int_type));
    assert!(arena.get(&ctx.type_type).typ.is_none());
    assert_eq!(arena.get(&ctx.int_type).typ, Some(ctx.type_type));
    assert_eq!(PyObject::str(&arena, &ctx.type_type).unwrap(), "<class 'type'>");
    assert_eq!(PyObject::str(&arena, &ctx.int_type).unwrap(), "<class 'int'>");
}

#[test]
fn factories_never_dedupe() {
    let mut arena = Arena::new();
    let ctx = PyContext::new(&mut arena);
    let a = ctx.new_int(&mut arena, 5);
    let b = ctx.new_int(&mut arena, 5);
    assert_ne!(a, b);
    assert_eq!(PyObject::eq(&arena, &a, &b), Ok(true));
}

#[test]
fn integers_carry_the_integer_type_link() {
    let mut arena = Arena::new();
    let ctx = PyContext::new(&mut arena);
    let a = ctx.new_int(&mut arena, 5);
    assert_eq!(arena.get(&a).typ, Some(ctx.int_type));
}

#[test]
fn freed_objects_are_stale() {
    let mut arena = Arena::new();
    let ctx = PyContext::new(&mut arena);
    let a = ctx.new_int(&mut arena, 5);
    assert!(arena.is_live(&a));
    arena.free(&a);
    assert!(!arena.is_live(&a));
    assert_eq!(PyObject::str(&arena, &a), Err(PyError::ValueError));
    let b = ctx.new_int(&mut arena, 6);
    // the slot is reused under a new generation: the old handle stays stale
    assert!(arena.is_live(&b));
    assert!(!arena.is_live(&a));
}

#[test]
fn aliases_see_mutation() {
    let mut arena = Arena::new();
    let ctx = PyContext::new(&mut arena);
    let ten = ctx.new_int(&mut arena, 10);
    let list = PyObject::new(
        &mut arena,
        PyObjectKind::List { elements: vec![ten] },
        ctx.type_type,
    );
    let alias = list;
    let it = PyObject::new(
        &mut arena,
        PyObjectKind::Iterator { position: 0, iterated_obj: alias },
        ctx.type_type,
    );
    assert_eq!(PyObject::nxt(&mut arena, &it).unwrap(), Some(ten));
    // the advance is visible through every alias of the iterator
    assert_eq!(PyObject::str(&arena, &it).unwrap(), "<iter pos 1 in [10]>");
}

#[test]
fn equality_is_reflexive_and_symmetric() {
    let mut arena = Arena::new();
    let ctx = PyContext::new(&mut arena);
    let one = ctx.new_int(&mut arena, 1);
    let two = ctx.new_int(&mut arena, 2);
    let other_one = ctx.new_int(&mut arena, 1);
    assert_eq!(PyObject::eq(&arena, &one, &one), Ok(true));
    assert_eq!(PyObject::eq(&arena, &one, &other_one), Ok(true));
    assert_eq!(PyObject::eq(&arena, &other_one, &one), Ok(true));
    assert_eq!(PyObject::eq(&arena, &one, &two), Ok(false));
    assert_eq!(PyObject::eq(&arena, &two, &one), Ok(false));
    let l1 = PyObject::new(
        &mut arena,
        PyObjectKind::List { elements: vec![one, two] },
        ctx.type_type,
    );
    let l2 = PyObject::new(
        &mut arena,
        PyObjectKind::List { elements: vec![other_one, two] },
        ctx.type_type,
    );
    assert_eq!(PyObject::eq(&arena, &l1, &l1), Ok(true));
    assert_eq!(PyObject::eq(&arena, &l1, &l2), Ok(true));
    assert_eq!(PyObject::eq(&arena, &l2, &l1), Ok(true));
}

#[test]
fn cross_kind_equality_is_a_type_error() {
    let mut arena = Arena::new();
    let ctx = PyContext::new(&mut arena);
    let i = ctx.new_int(&mut arena, 1);
    let s = ctx.new_str(&mut arena, String::from("1"));
    assert_eq!(PyObject::eq(&arena, &i, &s), Err(PyError::TypeError));
    assert_eq!(PyObject::eq(&arena, &s, &i), Err(PyError::TypeError));
    let t = ctx.new_bool(&mut arena, true);
    assert_eq!(PyObject::eq(&arena, &t, &t), Err(PyError::TypeError));
}

#[test]
fn list_equality_is_elementwise() {
    let mut arena = Arena::new();
    let ctx = PyContext::new(&mut arena);
    let one = ctx.new_int(&mut arena, 1);
    let two = ctx.new_int(&mut arena, 2);
    let short = PyObject::new(
        &mut arena,
        PyObjectKind::List { elements: vec![one] },
        ctx.type_type,
    );
    let long = PyObject::new(
        &mut arena,
        PyObjectKind::List { elements: vec![one, two] },
        ctx.type_type,
    );
    let other = PyObject::new(
        &mut arena,
        PyObjectKind::List { elements: vec![two, two] },
        ctx.type_type,
    );
    assert_eq!(PyObject::eq(&arena, &short, &long), Ok(false));
    assert_eq!(PyObject::eq(&arena, &long, &other), Ok(false));
}

#[test]
fn ordering_is_integer_only() {
    let mut arena = Arena::new();
    let ctx = PyContext::new(&mut arena);
    let one = ctx.new_int(&mut arena, 1);
    let two = ctx.new_int(&mut arena, 2);
    assert_eq!(PyObject::cmp(arena.get(&one), arena.get(&two)), Ok(PyOrdering::Less));
    assert_eq!(PyObject::cmp(arena.get(&two), arena.get(&one)), Ok(PyOrdering::Greater));
    assert_eq!(PyObject::cmp(arena.get(&one), arena.get(&one)), Ok(PyOrdering::Equal));
    assert_eq!(
        PyObject::partial_cmp(arena.get(&one), arena.get(&two)),
        Ok(Some(PyOrdering::Less))
    );
    let s = ctx.new_str(&mut arena, String::from("a"));
    assert_eq!(PyObject::cmp(arena.get(&one), arena.get(&s)), Err(PyError::TypeError));
    assert_eq!(
        PyObject::partial_cmp(arena.get(&s), arena.get(&s)),
        Err(PyError::TypeError)
    );
}

#[test]
fn every_kind_renders() {
    let mut arena = Arena::new();
    let ctx = PyContext::new(&mut arena);
    let five = ctx.new_int(&mut arena, 5);
    assert_eq!(PyObject::str(&arena, &five).unwrap(), "5");
    let neg = ctx.new_int(&mut arena, -4096);
    assert_eq!(PyObject::str(&arena, &neg).unwrap(), "-4096");
    let one = ctx.new_int(&mut arena, 1);
    let two = ctx.new_int(&mut arena, 2);
    let list = PyObject::new(
        &mut arena,
        PyObjectKind::List { elements: vec![one, two] },
        ctx.type_type,
    );
    assert_eq!(PyObject::str(&arena, &list).unwrap(), "[1, 2]");
    let tuple = PyObject::new(
        &mut arena,
        PyObjectKind::Tuple { elements: vec![one, two] },
        ctx.type_type,
    );
    assert_eq!(PyObject::str(&arena, &tuple).unwrap(), "{1, 2}");
    let dict = PyObject::new(
        &mut arena,
        PyObjectKind::Dict { elements: vec![(String::from("a"), one)] },
        ctx.type_type,
    );
    assert_eq!(PyObject::str(&arena, &dict).unwrap(), "{a: 1}");
    let t = ctx.new_bool(&mut arena, true);
    assert_eq!(PyObject::str(&arena, &t).unwrap(), "true");
    let s = ctx.new_str(&mut arena, String::from("hi"));
    assert_eq!(PyObject::str(&arena, &s).unwrap(), "hi");
    let none = PyObject::new(&mut arena, PyObjectKind::NoneValue, ctx.type_type);
    assert_eq!(PyObject::str(&arena, &none).unwrap(), "None");
    let class = ctx.new_class(&mut arena, String::from("Foo"));
    assert_eq!(PyObject::str(&arena, &class).unwrap(), "<class 'Foo'>");
    let module = PyObject::new(
        &mut arena,
        PyObjectKind::Module { name: String::from("sys") },
        ctx.type_type,
    );
    assert_eq!(PyObject::str(&arena, &module).unwrap(), "<module 'sys'>");
    let slice = PyObject::new(
        &mut arena,
        PyObjectKind::Slice { start: Some(1), stop: None, step: Some(-2) },
        ctx.type_type,
    );
    assert_eq!(
        PyObject::str(&arena, &slice).unwrap(),
        "<slice 'Some(1):None:Some(-2)'>"
    );
    let err = PyObject::new(
        &mut arena,
        PyObjectKind::NameError { name: String::from("x") },
        ctx.type_type,
    );
    assert_eq!(PyObject::str(&arena, &err).unwrap(), "<NameError 'x'>");
    let native = PyObject::new(
        &mut arena,
        PyObjectKind::RustFunction { function: 0 },
        ctx.type_type,
    );
    assert_eq!(PyObject::str(&arena, &native).unwrap(), "<rustfunc>");
    let code = PyObject::new(
        &mut arena,
        PyObjectKind::Code { code: CodeObject { blob: vec![0, 1, 2] } },
        ctx.type_type,
    );
    assert_eq!(PyObject::str(&arena, &code).unwrap(), "<code>");
    let func = PyObject::new(
        &mut arena,
        PyObjectKind::Function { code: CodeObject { blob: vec![] } },
        ctx.type_type,
    );
    assert_eq!(PyObject::str(&arena, &func).unwrap(), "<func>");
}

#[test]
fn cyclic_structures_are_a_value_error_not_a_hang() {
    let mut arena = Arena::new();
    let ctx = PyContext::new(&mut arena);
    let list = PyObject::new(
        &mut arena,
        PyObjectKind::List { elements: vec![] },
        ctx.type_type,
    );
    let holder = PyObject::new(
        &mut arena,
        PyObjectKind::List { elements: vec![list, list] },
        ctx.type_type,
    );
    assert_eq!(PyObject::str(&arena, &holder).unwrap(), "[[], []]");
    // a list that holds itself: walking it must end in a typed failure
    arena.list_push(&list, list);
    assert_eq!(PyObject::str(&arena, &list), Err(PyError::ValueError));
    assert_eq!(PyObject::str(&arena, &holder), Err(PyError::ValueError));
    assert_eq!(PyObject::eq(&arena, &list, &list), Err(PyError::ValueError));
}

#[test]
fn stale_links_inside_structures_are_a_value_error() {
    let mut arena = Arena::new();
    let ctx = PyContext::new(&mut arena);
    let inner = ctx.new_int(&mut arena, 7);
    let holder = PyObject::new(
        &mut arena,
        PyObjectKind::List { elements: vec![inner] },
        ctx.type_type,
    );
    let cursor = PyObject::new(
        &mut arena,
        PyObjectKind::Iterator { position: 0, iterated_obj: holder },
        ctx.type_type,
    );
    arena.free(&inner);
    assert_eq!(PyObject::str(&arena, &holder), Err(PyError::ValueError));
    assert_eq!(PyObject::str(&arena, &cursor), Err(PyError::ValueError));
    assert_eq!(PyObject::eq(&arena, &holder, &holder), Err(PyError::ValueError));
    arena.free(&holder);
    // the iterator's target itself is gone: advancing reports the stale link
    assert_eq!(PyObject::nxt(&mut arena, &cursor), Err(PyError::ValueError));
}

#[test]
fn default_is_the_bare_none_object() {
    let o = PyObject::default();
    assert!(matches!(o.kind, PyObjectKind::NoneValue));
    assert!(o.typ.is_none());
    assert!(o.dict.is_empty());
}

#[test]
fn attributes_store_and_overwrite() {
    let mut arena = Arena::new();
    let ctx = PyContext::new(&mut arena);
    let obj = ctx.new_class(&mut arena, String::from("Point"));
    let one = ctx.new_int(&mut arena, 1);
    let two = ctx.new_int(&mut arena, 2);
    assert_eq!(PyObject::get_attr(&arena, &obj, &String::from("x")), Ok(None));
    assert_eq!(PyObject::set_attr(&mut arena, &obj, String::from("x"), one), Ok(()));
    assert_eq!(
        PyObject::get_attr(&arena, &obj, &String::from("x")),
        Ok(Some(one))
    );
    assert_eq!(PyObject::set_attr(&mut arena, &obj, String::from("y"), two), Ok(()));
    assert_eq!(
        PyObject::get_attr(&arena, &obj, &String::from("x")),
        Ok(Some(one))
    );
    assert_eq!(
        PyObject::get_attr(&arena, &obj, &String::from("y")),
        Ok(Some(two))
    );
    // overwriting replaces, it does not shadow
    assert_eq!(PyObject::set_attr(&mut arena, &obj, String::from("x"), two), Ok(()));
    assert_eq!(
        PyObject::get_attr(&arena, &obj, &String::from("x")),
        Ok(Some(two))
    );
    assert_eq!(arena.get(&obj).dict.len(), 2);
    arena.free(&obj);
    assert_eq!(
        PyObject::get_attr(&arena, &obj, &String::from("x")),
        Err(PyError::ValueError)
    );
    assert_eq!(
        PyObject::set_attr(&mut arena, &obj, String::from("x"), one),
        Err(PyError::ValueError)
    );
}

#[test]
fn nested_lists_compare_recursively() {
    let mut arena = Arena::new();
    let ctx = PyContext::new(&mut arena);
    let one = ctx.new_int(&mut arena, 1);
    let two = ctx.new_int(&mut arena, 2);
    let inner_a = PyObject::new(
        &mut arena,
        PyObjectKind::List { elements: vec![one, two] },
        ctx.type_type,
    );
    let inner_b = PyObject::new(
        &mut arena,
        PyObjectKind::List { elements: vec![one, two] },
        ctx.type_type,
    );
    let inner_c = PyObject::new(
        &mut arena,
        PyObjectKind::List { elements: vec![two, one] },
        ctx.type_type,
    );
    let outer_a = PyObject::new(
        &mut arena,
        PyObjectKind::List { elements: vec![inner_a] },
        ctx.type_type,
    );
    let outer_b = PyObject::new(
        &mut arena,
        PyObjectKind::List { elements: vec![inner_b] },
        ctx.type_type,
    );
    let outer_c = PyObject::new(
        &mut arena,
        PyObjectKind::List { elements: vec![inner_c] },
        ctx.type_type,
    );
    assert_eq!(PyObject::eq(&arena, &outer_a, &outer_b), Ok(true));
    assert_eq!(PyObject::eq(&arena, &outer_a, &outer_c), Ok(false));
}

#[test]
fn containers_join_with_the_fixed_separator() {
    let mut arena = Arena::new();
    let ctx = PyContext::new(&mut arena);
    let one = ctx.new_int(&mut arena, 1);
    let two = ctx.new_int(&mut arena, 2);
    let dict = PyObject::new(
        &mut arena,
        PyObjectKind::Dict {
            elements: vec![(String::from("a"), one), (String::from("b"), two)],
        },
        ctx.type_type,
    );
    assert_eq!(PyObject::str(&arena, &dict).unwrap(), "{a: 1, b: 2}");
    let nested = PyObject::new(
        &mut arena,
        PyObjectKind::List { elements: vec![dict] },
        ctx.type_type,
    );
    assert_eq!(PyObject::str(&arena, &nested).unwrap(), "[{a: 1, b: 2}]");
    let empty = PyObject::new(
        &mut arena,
        PyObjectKind::List { elements: vec![] },
        ctx.type_type,
    );
    assert_eq!(PyObject::str(&arena, &empty).unwrap(), "[]");
}
