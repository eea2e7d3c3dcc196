use napi::env::{Env, PromiseState};
use napi::error::JsError;
use napi::promise::JsPromise;
use napi::sys::Status;
use napi::types::JsString;
use napi::value::JsValue;

#[test]
fn rejecting_with_boom_settles_rejected() {
    let mut env = Env::new();
    let (promise, deferred) = JsPromise::new(&mut env).unwrap();
    assert_eq!(env.promise_state(promise.as_raw()), Some(PromiseState::Pending));
    let boom = JsString::new(&mut env, "boom").unwrap();
    let reason = boom.as_raw();
    deferred.reject(&mut env, boom).unwrap();
    match env.promise_state(promise.as_raw()) {
        Some(PromiseState::Rejected(h)) => {
            assert_eq!(h, reason);
            let s = JsString::from_raw(&mut env, h).unwrap();
            assert_eq!(s.get_str(&mut env).unwrap(), "boom");
        },
        other => panic!("not rejected: {:?}", other),
    }
}

#[test]
fn resolving_settles_resolved() {
    let mut env = Env::new();
    let (promise, deferred) = JsPromise::new(&mut env).unwrap();
    let v = JsString::new(&mut env, "ok").unwrap();
    let h = v.as_raw();
    deferred.resolve(&mut env, v).unwrap();
    assert_eq!(env.promise_state(promise.as_raw()), Some(PromiseState::Resolved(h)));
}

#[test]
fn settling_with_a_bad_value_fails() {
    let mut env = Env::new();
    let (promise, deferred) = JsPromise::new(&mut env).unwrap();
    assert!(matches!(deferred.resolve(&mut env, 4242usize), Err(JsError::Error { code: Status::InvalidArg, .. })));
    assert_eq!(env.promise_state(promise.as_raw()), Some(PromiseState::Pending));
}

#[test]
fn settling_while_an_exception_is_pending_fails() {
    let mut env = Env::new();
    let (promise, deferred) = JsPromise::new(&mut env).unwrap();
    let v = JsString::new(&mut env, "x").unwrap();
    let _ = env.throw(None, "pending");
    assert!(matches!(deferred.reject(&mut env, v), Err(JsError::PendingException)));
    assert_eq!(env.promise_state(promise.as_raw()), Some(PromiseState::Pending));
}
