use napi::env::Env;
use napi::error::JsError;
use napi::sys::Status;
use napi::types::{JsObject, JsWrap, WrapRegistry};
use napi::value::JsValue;

struct Record {
    n: i32,
}

struct Other {
    label: u64,
}

#[test]
fn wrap_then_unwrap_as_the_same_type() {
    let mut env = Env::new();
    let mut records = WrapRegistry::<Record>::new(&mut env).unwrap();
    let mut others = WrapRegistry::<Other>::new(&mut env).unwrap();
    let mut obj = JsObject::new(&mut env).unwrap();
    JsWrap::wrap(&mut env, &mut obj, Record { n: 7 }, &mut records).unwrap();
    let r = JsWrap::make_ref(&mut env, &obj, &records).unwrap();
    assert_eq!(r.n, 7);
    assert!(matches!(JsWrap::make_ref(&mut env, &obj, &others), Err(JsError::TypeMismatch)));
    let other_obj = JsObject::new(&mut env).unwrap();
    let w = JsWrap::new(&mut env, other_obj, Other { label: 9 }, &mut others).unwrap();
    assert_eq!(w.as_ref(&mut env, &others).unwrap().label, 9);
    let same = JsObject::from_raw(&mut env, w.as_raw()).unwrap();
    assert!(matches!(JsWrap::make_ref(&mut env, &same, &records), Err(JsError::TypeMismatch)));
}

#[test]
fn unwrap_as_mut_changes_the_payload() {
    let mut env = Env::new();
    let mut records = WrapRegistry::<Record>::new(&mut env).unwrap();
    let obj = JsObject::new(&mut env).unwrap();
    let mut w = JsWrap::new(&mut env, obj, Record { n: 1 }, &mut records).unwrap();
    w.as_mut(&mut env, &mut records).unwrap().n = 41;
    let h = w.as_raw();
    let mut again = JsObject::from_raw(&mut env, h).unwrap();
    JsWrap::make_mut(&mut env, &mut again, &mut records).unwrap().n += 1;
    assert_eq!(w.as_ref(&mut env, &records).unwrap().n, 42);
}

#[test]
fn an_object_holds_one_payload() {
    let mut env = Env::new();
    let mut records = WrapRegistry::<Record>::new(&mut env).unwrap();
    let mut obj = JsObject::new(&mut env).unwrap();
    JsWrap::wrap(&mut env, &mut obj, Record { n: 1 }, &mut records).unwrap();
    assert!(matches!(JsWrap::wrap(&mut env, &mut obj, Record { n: 2 }, &mut records),
        Err(JsError::Error { code: Status::InvalidArg, .. })));
    assert_eq!(JsWrap::make_ref(&mut env, &obj, &records).unwrap().n, 1);
}

#[test]
fn unwrap_without_payload_fails() {
    let mut env = Env::new();
    let records = WrapRegistry::<Record>::new(&mut env).unwrap();
    let obj = JsObject::new(&mut env).unwrap();
    assert!(matches!(JsWrap::make_ref(&mut env, &obj, &records), Err(JsError::Error { code: Status::InvalidArg, .. })));
    let mut records = records;
    let n = JsObject::new(&mut env).unwrap();
    let w = JsWrap::<Record>::new(&mut env, n, Record { n: 3 }, &mut records).unwrap();
    let back = JsWrap::<Record>::from_raw(&mut env, w.as_raw(), &records).unwrap();
    assert_eq!(back.as_ref(&mut env, &records).unwrap().n, 3);
}

#[test]
fn reclaiming_an_object_drops_its_payload_once() {
    let mut env = Env::new();
    let mut records = WrapRegistry::<Record>::new(&mut env).unwrap();
    let mut obj = JsObject::new(&mut env).unwrap();
    JsWrap::wrap(&mut env, &mut obj, Record { n: 5 }, &mut records).unwrap();
    records.reclaim(&mut env, obj.as_raw()).unwrap();
    assert!(matches!(JsWrap::make_ref(&mut env, &obj, &records), Err(JsError::Error { code: Status::InvalidArg, .. })));
    assert!(matches!(records.reclaim(&mut env, obj.as_raw()), Err(JsError::Error { code: Status::InvalidArg, .. })));
}

#[test]
fn building_a_wrap_of_another_type_fails() {
    let mut env = Env::new();
    let mut records = WrapRegistry::<Record>::new(&mut env).unwrap();
    let others = WrapRegistry::<Other>::new(&mut env).unwrap();
    let obj = JsObject::new(&mut env).unwrap();
    let w = JsWrap::new(&mut env, obj, Record { n: 7 }, &mut records).unwrap();
    let h = w.as_raw();
    assert!(matches!(JsWrap::<Other>::from_raw(&mut env, h, &others), Err(JsError::TypeMismatch)));
    assert!(!env.raw_is_exception_pending());
    let back = JsWrap::<Record>::from_raw(&mut env, h, &records).unwrap();
    assert_eq!(back.as_ref(&mut env, &records).unwrap().n, 7);
    let _ = Other { label: 0 }.label;
}
