use napi::env::{Env, HostValue, Num};
use napi::error::JsError;
use napi::promise::JsPromise;
use napi::sys::{Status, ValueType};
use napi::types::{
    JsArray, JsBool, JsBuffer, JsFunction, JsNull, JsNumber, JsObject, JsString, JsUndefined,
};
use napi::value::{
    get_named_property, get_property, has_named_property, has_property, set_named_property,
    set_property, to_bool, to_number, to_object, to_string, CastToJs, CastToRust, JsValue,
    JsValueRaw,
};

fn number(env: &mut Env, n: i64) -> JsNumber {
    n.cast(env).unwrap()
}

fn text(env: &mut Env, s: &str) -> JsString {
    JsString::new(env, s).unwrap()
}

fn read_i64(env: &mut Env, h: usize) -> i64 {
    let n = JsNumber::from_raw(env, h).unwrap();
    let v: i64 = n.cast(env).unwrap();
    v
}

fn read_str(env: &mut Env, h: usize) -> String {
    let s = JsString::from_raw(env, h).unwrap();
    s.get_str(env).unwrap()
}

#[test]
fn number_round_trips_without_coercion() {
    let mut env = Env::new();
    let n = number(&mut env, 7);
    let before = env.frame_count();
    let back = JsNumber::from_raw(&mut env, n.as_raw()).unwrap();
    assert_eq!(back.as_raw(), n.as_raw());
    assert_eq!(env.frame_count(), before);
    assert_eq!(read_i64(&mut env, back.as_raw()), 7);
}

#[test]
fn each_variant_round_trips_its_own_handle() {
    let mut env = Env::new();
    let s = text(&mut env, "hi");
    assert_eq!(JsString::from_raw(&mut env, s.as_raw()).unwrap().as_raw(), s.as_raw());
    let b = JsBool::new(&mut env, true).unwrap();
    assert_eq!(JsBool::from_raw(&mut env, b.as_raw()).unwrap().as_raw(), b.as_raw());
    let o = JsObject::new(&mut env).unwrap();
    assert_eq!(JsObject::from_raw(&mut env, o.as_raw()).unwrap().as_raw(), o.as_raw());
    let a = JsArray::new(&mut env).unwrap();
    assert_eq!(JsArray::from_raw(&mut env, a.as_raw()).unwrap().as_raw(), a.as_raw());
    let buf = JsBuffer::copy_bytes(&mut env, &[1, 2, 3]).unwrap();
    assert_eq!(JsBuffer::from_raw(&mut env, buf.as_raw()).unwrap().as_raw(), buf.as_raw());
    let u = JsUndefined::get(&mut env).unwrap();
    assert_eq!(JsUndefined::from_raw(&mut env, u.as_raw()).unwrap().as_raw(), u.as_raw());
    let nl = JsNull::get(&mut env).unwrap();
    assert_eq!(JsNull::from_raw(&mut env, nl.as_raw()).unwrap().as_raw(), nl.as_raw());
    let (p, _d) = JsPromise::new(&mut env).unwrap();
    assert_eq!(JsPromise::from_raw(&mut env, p.as_raw()).unwrap().as_raw(), p.as_raw());
    let r = JsValueRaw::from_raw(&mut env, 12345).unwrap();
    assert_eq!(r.as_raw(), 12345);
}

#[test]
fn number_from_string_42_is_42() {
    let mut env = Env::new();
    let s = text(&mut env, "42");
    let n = JsNumber::from_raw(&mut env, s.as_raw()).unwrap();
    assert_ne!(n.as_raw(), s.as_raw());
    assert_eq!(read_i64(&mut env, n.as_raw()), 42);
}

#[test]
fn number_from_false_is_zero() {
    let mut env = Env::new();
    let b = JsBool::new(&mut env, false).unwrap();
    let n = JsNumber::from_raw(&mut env, b.as_raw()).unwrap();
    assert_eq!(read_i64(&mut env, n.as_raw()), 0);
    let t = JsBool::new(&mut env, true).unwrap();
    let n = JsNumber::from_raw(&mut env, t.as_raw()).unwrap();
    assert_eq!(read_i64(&mut env, n.as_raw()), 1);
}

#[test]
fn number_text_rules() {
    let mut env = Env::new();
    for (t, want) in [("", Num::Int(0)), ("-17", Num::Int(-17)), ("abc", Num::NaN), ("1x", Num::NaN),
        ("-", Num::NaN), ("999999999999999999", Num::Int(999999999999999999)), ("1000000000000000000", Num::NaN)] {
        assert_eq!(napi::text::parse_number(t.as_bytes()), want, "{}", t);
    }
    let s = text(&mut env, "abc");
    let n = JsNumber::from_raw(&mut env, s.as_raw()).unwrap();
    assert_eq!(read_i64(&mut env, n.as_raw()), 0);
}

#[test]
fn decimal_text_of_integers() {
    assert_eq!(napi::text::format_int(0), b"0".to_vec());
    assert_eq!(napi::text::format_int(-905), b"-905".to_vec());
    assert_eq!(napi::text::format_int(i64::MIN), b"-9223372036854775808".to_vec());
    assert_eq!(napi::text::format_int(i64::MAX), b"9223372036854775807".to_vec());
}

#[test]
fn string_coercions() {
    let mut env = Env::new();
    let n = number(&mut env, -17);
    let s = JsString::from_raw(&mut env, n.as_raw()).unwrap();
    assert_eq!(s.get_str(&mut env).unwrap(), "-17");
    let b = JsBool::new(&mut env, true).unwrap();
    let s = to_string(b, &mut env).unwrap();
    assert_eq!(s.get_str(&mut env).unwrap(), "true");
    let u = env.undefined().unwrap();
    let s = to_string(u, &mut env).unwrap();
    assert_eq!(s.get_str(&mut env).unwrap(), "undefined");
    let o = JsObject::new(&mut env).unwrap();
    let s = to_string(o, &mut env).unwrap();
    assert_eq!(s.get_str(&mut env).unwrap(), "[object Object]");
}

#[test]
fn bool_coercions() {
    let mut env = Env::new();
    let e = text(&mut env, "");
    let b = JsBool::from_raw(&mut env, e.as_raw()).unwrap();
    assert!(!b.get_bool(&mut env).unwrap());
    let ne = text(&mut env, "x");
    let b = to_bool(ne, &mut env).unwrap();
    assert!(b.get_bool(&mut env).unwrap());
    let z = number(&mut env, 0);
    let b = to_bool(z, &mut env).unwrap();
    let v: bool = b.cast(&mut env).unwrap();
    assert!(!v);
    let o = JsObject::new(&mut env).unwrap();
    let b = JsBool::from_raw(&mut env, o.as_raw()).unwrap();
    assert!(b.get_bool(&mut env).unwrap());
}

#[test]
fn object_coercions() {
    let mut env = Env::new();
    let n = number(&mut env, 3);
    let o = to_object(n, &mut env).unwrap();
    assert_eq!(env.type_of(o.as_raw()).unwrap(), ValueType::Object);
    let u = env.undefined().unwrap();
    let h = u.as_raw();
    assert!(matches!(JsObject::from_raw(&mut env, h), Err(JsError::PendingException)));
    let e = env.raw_get_and_clear_last_exception().unwrap();
    assert_eq!(e.message, b"cannot convert to object".to_vec());
    let a = JsArray::new(&mut env).unwrap();
    let ah = a.as_raw();
    assert_eq!(JsObject::from_raw(&mut env, ah).unwrap().as_raw(), ah);
}

#[test]
fn to_number_of_null_is_zero() {
    let mut env = Env::new();
    let nl = env.null().unwrap();
    let n = to_number(nl, &mut env).unwrap();
    assert_eq!(read_i64(&mut env, n.as_raw()), 0);
}

#[test]
fn strict_variants_refuse_other_types() {
    let mut env = Env::new();
    let n = number(&mut env, 1).as_raw();
    let s = text(&mut env, "x").as_raw();
    let o = JsObject::new(&mut env).unwrap().as_raw();
    let u = JsUndefined::get(&mut env).unwrap().as_raw();
    let nl = JsNull::get(&mut env).unwrap().as_raw();
    let a = JsArray::new(&mut env).unwrap().as_raw();
    let before = env.frame_count();
    assert!(matches!(JsArray::from_raw(&mut env, n), Err(JsError::TypeMismatch)));
    assert!(matches!(JsArray::from_raw(&mut env, o), Err(JsError::TypeMismatch)));
    assert!(matches!(JsFunction::from_raw(&mut env, s), Err(JsError::TypeMismatch)));
    assert!(matches!(JsBuffer::from_raw(&mut env, a), Err(JsError::TypeMismatch)));
    assert!(matches!(JsPromise::from_raw(&mut env, o), Err(JsError::TypeMismatch)));
    assert!(matches!(JsNull::from_raw(&mut env, u), Err(JsError::TypeMismatch)));
    assert!(matches!(JsUndefined::from_raw(&mut env, nl), Err(JsError::TypeMismatch)));
    let bytes_reg = napi::types::WrapRegistry::<u8>::new(&mut env).unwrap();
    assert!(matches!(napi::types::JsWrap::<u8>::from_raw(&mut env, o, &bytes_reg), Err(JsError::TypeMismatch)));
    assert_eq!(env.frame_count(), before);
    assert!(!env.raw_is_exception_pending());
}

#[test]
fn invalid_handle_is_a_status_error() {
    let mut env = Env::new();
    match JsNumber::from_raw(&mut env, 99) {
        Err(JsError::Error { code, .. }) => assert_eq!(code, Status::InvalidArg),
        _ => panic!("expected a status error"),
    }
    assert!(matches!(JsArray::from_raw(&mut env, 99), Err(JsError::Error { code: Status::InvalidArg, .. })));
}

#[test]
fn coercion_with_pending_exception_reports_it() {
    let mut env = Env::new();
    let s = text(&mut env, "5");
    assert!(matches!(env.throw(Some("E1"), "first"), Err(JsError::PendingException)));
    assert!(matches!(JsNumber::from_raw(&mut env, s.as_raw()), Err(JsError::PendingException)));
    assert!(matches!(env.throw(None, "second"), Err(JsError::PendingException)));
    let e = env.raw_get_and_clear_last_exception().unwrap();
    assert_eq!(e.message, b"first".to_vec());
    assert_eq!(e.code, Some(b"E1".to_vec()));
}

#[test]
fn get_str_reads_utf8_text() {
    let mut env = Env::new();
    let s = env.string("héllo wörld").unwrap();
    assert_eq!(s.get_str(&mut env).unwrap(), "héllo wörld");
    let e = env.string("").unwrap();
    assert_eq!(e.get_str(&mut env).unwrap(), "");
    let bad = JsString::from_utf8(&mut env, &[0xff, 0xfe]).unwrap();
    assert!(matches!(bad.get_str(&mut env), Err(JsError::Error { code: Status::StringExpected, .. })));
    let n = number(&mut env, 1);
    let h = n.as_raw();
    let as_string: String = "x".to_string();
    let js: JsString = as_string.cast(&mut env).unwrap();
    assert_eq!(read_str(&mut env, js.as_raw()), "x");
    let _ = h;
}

#[test]
fn integer_casts() {
    let mut env = Env::new();
    let big = number(&mut env, (1i64 << 32) + 5);
    let x: i32 = big.cast(&mut env).unwrap();
    assert_eq!(x, 5);
    let y: i64 = big.cast(&mut env).unwrap();
    assert_eq!(y, (1i64 << 32) + 5);
    let u: JsNumber = 4000000000u32.cast(&mut env).unwrap();
    assert_eq!(read_i64(&mut env, u.as_raw()), 4000000000);
    let m: JsNumber = (-3i32).cast(&mut env).unwrap();
    assert_eq!(read_i64(&mut env, m.as_raw()), -3);
    let s = text(&mut env, "1");
    let not_number = JsNumber::from_raw(&mut env, s.as_raw()).unwrap();
    let _ = not_number;
}

#[test]
fn array_elements() {
    let mut env = Env::new();
    let mut a = JsArray::new_with_len(&mut env, 2).unwrap();
    assert_eq!(a.len(&mut env).unwrap(), 2);
    let n = number(&mut env, 10);
    a.set(&mut env, 0, n).unwrap();
    let s = text(&mut env, "two");
    a.set(&mut env, 1, s).unwrap();
    let b = JsBool::new(&mut env, true).unwrap();
    a.set(&mut env, 4, b).unwrap();
    assert_eq!(a.len(&mut env).unwrap(), 5);
    assert_eq!(a.get_i64(&mut env, 0).unwrap(), 10);
    assert_eq!(a.get_i32(&mut env, 0).unwrap(), 10);
    assert_eq!(a.get_str(&mut env, 1).unwrap(), "two");
    assert_eq!(a.get_str(&mut env, 0).unwrap(), "10");
    assert!(a.get_bool(&mut env, 4).unwrap());
    assert!(a.has(&mut env, 1).unwrap());
    assert!(!a.has(&mut env, 2).unwrap());
    assert!(a.delete(&mut env, 1).unwrap());
    assert!(!a.has(&mut env, 1).unwrap());
    let missing = a.get_raw(&mut env, 3).unwrap();
    assert_eq!(env.type_of(missing.as_raw()).unwrap(), ValueType::Undefined);
    let o = JsObject::new(&mut env).unwrap();
    a.set(&mut env, 2, o).unwrap();
    let got = a.get_obj(&mut env, 2).unwrap();
    assert_eq!(env.type_of(got.as_raw()).unwrap(), ValueType::Object);
    assert!(matches!(a.get_raw(&mut env, 1usize << 40), Err(JsError::Error { code: Status::InvalidArg, .. })));
    assert!(matches!(JsArray::new_with_len(&mut env, 1usize << 40), Err(JsError::Error { code: Status::InvalidArg, .. })));
    let n = number(&mut env, 1);
    let nh = n.as_raw();
    let not_array = JsNumber::from_raw(&mut env, nh).unwrap();
    let _ = not_array;
}

#[test]
fn buffers_copy_and_view_bytes() {
    let mut env = Env::new();
    let data = vec![1u8, 2, 3, 250];
    let b: JsBuffer = data.cast(&mut env).unwrap();
    assert_eq!(b.as_bytes(&env).unwrap(), &[1u8, 2, 3, 250][..]);
    let copy: Vec<u8> = b.cast(&mut env).unwrap();
    assert_eq!(copy, data);
    let empty: &[u8] = &[];
    let e: JsBuffer = empty.cast(&mut env).unwrap();
    assert_eq!(e.as_bytes(&env).unwrap().len(), 0);
}

#[test]
fn named_and_keyed_properties() {
    let mut env = Env::new();
    let mut o = JsObject::new(&mut env).unwrap();
    let n = number(&mut env, 5);
    assert!(!has_named_property(&o, &mut env, "a").unwrap());
    set_named_property(&mut o, &mut env, "a", &n).unwrap();
    assert!(has_named_property(&o, &mut env, "a").unwrap());
    let got: Option<JsNumber> = get_named_property(&o, &mut env, "a").unwrap();
    let v: i64 = got.unwrap().cast(&mut env).unwrap();
    assert_eq!(v, 5);
    let none: Option<JsNumber> = get_named_property(&o, &mut env, "b").unwrap();
    assert!(none.is_none());
    let s = text(&mut env, "v");
    set_property(&mut o, &mut env, "b", &s).unwrap();
    assert!(has_property(&o, &mut env, "b").unwrap());
    let got: Option<JsString> = get_property(&o, &mut env, "b").unwrap();
    assert_eq!(got.unwrap().get_str(&mut env).unwrap(), "v");
    let seven = number(&mut env, 7);
    set_named_property(&mut o, &mut env, "a", &seven).unwrap();
    let got: Option<JsNumber> = get_named_property(&o, &mut env, "a").unwrap();
    let v: i64 = got.unwrap().cast(&mut env).unwrap();
    assert_eq!(v, 7);
    let mut prim = number(&mut env, 1);
    assert!(matches!(set_named_property(&mut prim, &mut env, "x", &seven),
        Err(JsError::Error { code: Status::ObjectExpected, .. })));
}

#[test]
fn type_predicates() {
    let mut env = Env::new();
    let n = number(&mut env, 1);
    assert!(n.is_number(&mut env).unwrap());
    assert!(!n.is_string(&mut env).unwrap());
    let a = JsArray::new(&mut env).unwrap();
    assert!(a.is_array(&mut env).unwrap());
    assert!(a.is_object(&mut env).unwrap());
    let u = env.undefined().unwrap();
    assert!(u.is_undefined(&mut env).unwrap());
    assert!(u.is_null_or_undefined(&mut env).unwrap());
    let nl = env.null().unwrap();
    assert!(nl.is_null(&mut env).unwrap());
    let b = JsBuffer::copy_bytes(&mut env, b"x").unwrap();
    assert!(b.is_buffer(&mut env).unwrap());
    assert!(env.is_type_of(n.as_raw(), ValueType::Number).unwrap());
}

#[test]
fn env_throw_with_code() {
    let mut env = Env::new();
    assert!(matches!(env.throw(Some("ERR_X"), "bad"), Err(JsError::PendingException)));
    let e = env.raw_get_and_clear_last_exception().unwrap();
    assert_eq!(e.code, Some(b"ERR_X".to_vec()));
    assert_eq!(e.message, b"bad".to_vec());
    assert!(!env.raw_is_exception_pending());
}

#[test]
fn js_error_throw_and_from_env() {
    let mut env = Env::new();
    JsError::TypeMismatch.throw(&mut env);
    let e = env.raw_get_and_clear_last_exception().unwrap();
    assert_eq!(e.message, b"type mismatch".to_vec());
    JsError::PendingException.throw(&mut env);
    assert!(!env.raw_is_exception_pending());
    let _ = JsNumber::from_raw(&mut env, 1000);
    match JsError::from_env(&env) {
        JsError::Error { code, .. } => assert_eq!(code, Status::InvalidArg),
        _ => panic!("expected the last status"),
    }
    assert!(JsError::PendingException.is_pending_exception());
    assert!(!JsError::TypeMismatch.is_pending_exception());
    let _ = HostValue::Undefined;
}
