use std::cell::Cell;
use std::rc::Rc;

use napi::callback::{Callback, CallbackInfo, FunctionRegistry};
use napi::env::Env;
use napi::error::JsError;
use napi::sys::{Status, ThreadsafeFunctionCallMode};
use napi::ts_func::{JsCaller, ThreadSafeFunction};
use napi::types::{JsArray, JsFunction, JsNumber, JsObject, JsUndefined};
use napi::value::{CastToJs, CastToRust, JsValue};
use napi::JsResult;

struct Noop;

impl Callback<JsUndefined> for Noop {
    fn call(&self, env: &mut Env, _info: CallbackInfo) -> JsResult<JsUndefined> {
        env.undefined()
    }
}

/// Appends each delivered item to an array, and counts its own drop.
struct Recorder {
    target: usize,
    dropped: Rc<Cell<u32>>,
}

impl Drop for Recorder {
    fn drop(&mut self) {
        self.dropped.set(self.dropped.get() + 1);
    }
}

impl JsCaller<i64> for Recorder {
    fn call(&self, env: &mut Env, _func: JsFunction, data: i64) {
        let mut arr = JsArray::from_raw(env, self.target).unwrap();
        let len = arr.len(env).unwrap();
        let n: JsNumber = data.cast(env).unwrap();
        arr.set(env, len, n).unwrap();
    }
}

fn setup(env: &mut Env, capacity: usize) -> (ThreadSafeFunction<i64, Recorder>, JsArray, Rc<Cell<u32>>) {
    let mut reg = FunctionRegistry::new(env).unwrap();
    let f = reg.register(env, "cb", Noop).unwrap();
    let arr = JsArray::new(env).unwrap();
    let dropped = Rc::new(Cell::new(0));
    let rec = Recorder { target: arr.as_raw(), dropped: dropped.clone() };
    let t = ThreadSafeFunction::with_queue_size(env, f, rec, capacity).unwrap();
    (t, arr, dropped)
}

#[test]
fn n_acquires_and_n_plus_one_releases_finalize_once() {
    for n in [0u32, 1, 3] {
        let mut env = Env::new();
        let (mut t, _arr, dropped) = setup(&mut env, 0);
        for _ in 0..n {
            t.clone().unwrap();
        }
        assert_eq!(t.refs(), n as u64 + 1);
        for _ in 0..n {
            t.release(&mut env).unwrap();
            assert_eq!(dropped.get(), 0);
            assert_eq!(t.finalizations(), 0);
        }
        t.release(&mut env).unwrap();
        assert_eq!(t.finalizations(), 1);
        assert_eq!(dropped.get(), 1);
        assert!(matches!(t.call(5, ThreadsafeFunctionCallMode::Blocking), Err(e) if e.status == Status::Closing));
        assert!(matches!(t.clone(), Err(e) if e.status == Status::Closing));
        assert!(matches!(t.release(&mut env), Err(e) if e.status == Status::InvalidArg));
        assert_eq!(t.finalizations(), 1);
        assert_eq!(dropped.get(), 1);
    }
}

#[test]
fn items_are_delivered_in_order() {
    let mut env = Env::new();
    let (mut t, arr, _dropped) = setup(&mut env, 0);
    for v in [3i64, 1, 2] {
        t.call(v, ThreadsafeFunctionCallMode::Blocking).unwrap();
    }
    assert_eq!(t.queued(), 3);
    while t.dispatch(&mut env) {}
    assert_eq!(t.queued(), 0);
    assert_eq!(arr.len(&mut env).unwrap(), 3);
    assert_eq!(arr.get_i64(&mut env, 0).unwrap(), 3);
    assert_eq!(arr.get_i64(&mut env, 1).unwrap(), 1);
    assert_eq!(arr.get_i64(&mut env, 2).unwrap(), 2);
    assert!(!t.dispatch(&mut env));
}

#[test]
fn non_blocking_call_on_a_full_queue_fails() {
    let mut env = Env::new();
    let (mut t, _arr, _dropped) = setup(&mut env, 2);
    t.call(1, ThreadsafeFunctionCallMode::NonBlocking).unwrap();
    t.call(2, ThreadsafeFunctionCallMode::NonBlocking).unwrap();
    assert!(matches!(t.call(3, ThreadsafeFunctionCallMode::NonBlocking), Err(e) if e.status == Status::QueueFull));
    assert_eq!(t.queued(), 2);
    assert!(matches!(t.call(3, ThreadsafeFunctionCallMode::Blocking), Err(e) if e.status == Status::QueueFull));
    assert!(t.dispatch(&mut env));
    t.call(3, ThreadsafeFunctionCallMode::Blocking).unwrap();
    assert_eq!(t.queued(), 2);
}

#[test]
fn last_release_drops_what_is_queued() {
    let mut env = Env::new();
    let (mut t, arr, dropped) = setup(&mut env, 0);
    t.call(9, ThreadsafeFunctionCallMode::Blocking).unwrap();
    t.release(&mut env).unwrap();
    assert_eq!(t.queued(), 0);
    assert!(!t.dispatch(&mut env));
    assert_eq!(arr.len(&mut env).unwrap(), 0);
    assert_eq!(dropped.get(), 1);
}

#[test]
fn bridge_target_must_be_a_function() {
    let mut env = Env::new();
    let o = JsObject::new(&mut env).unwrap();
    let fake = JsFunction::from_raw(&mut env, o.as_raw());
    assert!(matches!(fake, Err(JsError::TypeMismatch)));
    let mut reg = FunctionRegistry::new(&mut env).unwrap();
    let f = reg.register(&mut env, "cb", Noop).unwrap();
    let dropped = Rc::new(Cell::new(0));
    let rec = Recorder { target: 0, dropped: dropped.clone() };
    let t = ThreadSafeFunction::new(&mut env, f, rec).unwrap();
    assert_eq!(t.refs(), 1);
    let n: i64 = 0;
    let _ = n;
}
