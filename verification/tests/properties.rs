use testvalue::{
    internal_adjust, set_callback, Callback, Registry, ScopedCallback, TypeMismatch, TypeTag,
    Value,
};

#[test]
fn default_noop_never_registered() {
    let reg = Registry::new();
    let mut a = Value::Int32(17);
    internal_adjust(&reg, "never_registered", &mut a);
    assert_eq!(a, Value::Int32(17));

    let mut b = Value::Boolean(true);
    internal_adjust(&reg, "also_never_registered", &mut b);
    assert_eq!(b, Value::Boolean(true));

    let mut c = Value::Text(String::from("untouched"));
    internal_adjust(&reg, "never_registered", &mut c);
    assert_eq!(c, Value::Text(String::from("untouched")));
}

#[test]
fn lookup_miss_reports_no_hit() {
    let reg = Registry::new();
    let mut v = Value::Int64(-4);
    assert_eq!(reg.invoke("missing", &mut v), Ok(false));
    assert_eq!(v, Value::Int64(-4));
}

#[test]
fn basic_override_ignores_prior_value() {
    let mut reg = Registry::new();
    set_callback(&mut reg, String::from("n"), Callback::SetInt32(42));

    let mut a = Value::Int32(0);
    internal_adjust(&reg, "n", &mut a);
    assert_eq!(a, Value::Int32(42));

    let mut b = Value::Int32(-1000);
    internal_adjust(&reg, "n", &mut b);
    assert_eq!(b, Value::Int32(42));

    let mut c = Value::Int32(42);
    internal_adjust(&reg, "n", &mut c);
    assert_eq!(c, Value::Int32(42));
}

#[test]
fn scoped_removal_reverts_to_noop() {
    let mut reg = Registry::new();
    let handle = ScopedCallback::new(&mut reg, String::from("n"), Callback::SetInt32(9));

    let mut during = Value::Int32(1);
    internal_adjust(&reg, "n", &mut during);
    assert_eq!(during, Value::Int32(9));

    handle.close(&mut reg);
    let mut after = Value::Int32(1);
    internal_adjust(&reg, "n", &mut after);
    assert_eq!(after, Value::Int32(1));
}

#[test]
fn scoped_close_removes_current_entry() {
    let mut reg = Registry::new();
    let handle = ScopedCallback::new(&mut reg, String::from("n"), Callback::SetInt32(1));
    set_callback(&mut reg, String::from("n"), Callback::SetInt32(2));

    let mut v = Value::Int32(0);
    internal_adjust(&reg, "n", &mut v);
    assert_eq!(v, Value::Int32(2));

    handle.close(&mut reg);
    let mut w = Value::Int32(0);
    internal_adjust(&reg, "n", &mut w);
    assert_eq!(w, Value::Int32(0));
}

#[test]
fn isolation_across_names() {
    let mut reg = Registry::new();
    set_callback(&mut reg, String::from("a"), Callback::SetInt32(5));

    let mut other = Value::Int32(11);
    internal_adjust(&reg, "b", &mut other);
    assert_eq!(other, Value::Int32(11));

    set_callback(&mut reg, String::from("b"), Callback::SetInt32(6));
    let mut va = Value::Int32(0);
    internal_adjust(&reg, "a", &mut va);
    assert_eq!(va, Value::Int32(5));
    let mut vb = Value::Int32(0);
    internal_adjust(&reg, "b", &mut vb);
    assert_eq!(vb, Value::Int32(6));
}

#[test]
fn overwrite_uses_second_callback() {
    let mut reg = Registry::new();
    set_callback(&mut reg, String::from("n"), Callback::SetInt32(1));
    set_callback(&mut reg, String::from("n"), Callback::SetInt32(2));

    let mut v = Value::Int32(0);
    internal_adjust(&reg, "n", &mut v);
    assert_eq!(v, Value::Int32(2));
}

#[test]
fn type_mismatch_is_fatal_not_silent() {
    let mut reg = Registry::new();
    set_callback(&mut reg, String::from("n"), Callback::SetInt32(7));

    let mut v = Value::Text(String::from("not an int32"));
    assert_eq!(reg.invoke("n", &mut v), Err(TypeMismatch));
    assert_eq!(v, Value::Text(String::from("not an int32")));
}

#[test]
fn adjust_scenario() {
    let mut reg = Registry::new();

    let mut v = Value::Int32(1);
    internal_adjust(&reg, "adjust", &mut v);
    assert_eq!(v, Value::Int32(1));

    let handle = ScopedCallback::new(&mut reg, String::from("adjust"), Callback::AddInt32(1));
    let mut w = Value::Int32(1);
    internal_adjust(&reg, "adjust", &mut w);
    assert_eq!(w, Value::Int32(2));

    handle.close(&mut reg);
    let mut u = Value::Int32(1);
    internal_adjust(&reg, "adjust", &mut u);
    assert_eq!(u, Value::Int32(1));
}

#[test]
fn additive_callbacks_wrap_on_overflow() {
    let mut reg = Registry::new();
    set_callback(&mut reg, String::from("n32"), Callback::AddInt32(1));
    set_callback(&mut reg, String::from("n64"), Callback::AddInt64(-1));

    let mut v = Value::Int32(i32::MAX);
    internal_adjust(&reg, "n32", &mut v);
    assert_eq!(v, Value::Int32(i32::MIN));

    let mut w = Value::Int64(i64::MIN);
    internal_adjust(&reg, "n64", &mut w);
    assert_eq!(w, Value::Int64(i64::MAX));
}

#[test]
fn every_setter_overrides_its_type() {
    let mut reg = Registry::new();
    set_callback(&mut reg, String::from("i64"), Callback::SetInt64(-9));
    set_callback(&mut reg, String::from("flag"), Callback::SetBoolean(false));
    set_callback(&mut reg, String::from("text"), Callback::SetText(String::from("after")));

    let mut a = Value::Int64(3);
    assert_eq!(reg.invoke("i64", &mut a), Ok(true));
    assert_eq!(a, Value::Int64(-9));

    let mut b = Value::Boolean(true);
    assert_eq!(reg.invoke("flag", &mut b), Ok(true));
    assert_eq!(b, Value::Boolean(false));

    let mut c = Value::Text(String::from("before"));
    assert_eq!(reg.invoke("text", &mut c), Ok(true));
    assert_eq!(c, Value::Text(String::from("after")));
}

#[test]
fn unregister_absent_name_is_noop() {
    let mut reg = Registry::new();
    set_callback(&mut reg, String::from("kept"), Callback::SetInt32(4));
    reg.unregister("absent");

    let mut v = Value::Int32(0);
    internal_adjust(&reg, "kept", &mut v);
    assert_eq!(v, Value::Int32(4));
}

#[test]
fn tags_identify_types() {
    assert_eq!(Value::Int32(0).tag(), TypeTag::Int32);
    assert_eq!(Value::Int64(0).tag(), TypeTag::Int64);
    assert_eq!(Value::Boolean(false).tag(), TypeTag::Boolean);
    assert_eq!(Value::Text(String::new()).tag(), TypeTag::Text);

    assert_eq!(Callback::SetInt32(0).expected_tag(), TypeTag::Int32);
    assert_eq!(Callback::AddInt32(0).expected_tag(), TypeTag::Int32);
    assert_eq!(Callback::SetInt64(0).expected_tag(), TypeTag::Int64);
    assert_eq!(Callback::AddInt64(0).expected_tag(), TypeTag::Int64);
    assert_eq!(Callback::SetBoolean(true).expected_tag(), TypeTag::Boolean);
    assert_eq!(Callback::SetText(String::new()).expected_tag(), TypeTag::Text);
}

#[test]
fn values_of_different_types_never_compare_equal() {
    assert_ne!(Value::Int32(0), Value::Int64(0));
    assert_ne!(Value::Boolean(false), Value::Int32(0));
    assert_ne!(Value::Text(String::from("1")), Value::Int32(1));
    assert_ne!(Value::Text(String::from("a")), Value::Text(String::from("b")));
}
