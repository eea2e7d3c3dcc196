use napi::callback::{set_function, Callback, CallbackInfo, FunctionRegistry};
use napi::env::Env;
use napi::error::JsError;
use napi::sys::ThreadsafeFunctionCallMode;
use napi::ts_func::{JsCaller, ThreadSafeFunction};
use napi::types::{JsArray, JsFunction, JsNumber, JsObject, JsString};
use napi::value::{get_named_property, set_named_property, CastToJs, CastToRust, JsValue};
use napi::JsResult;

struct Hello;

impl Callback<JsString> for Hello {
    fn call(&self, env: &mut Env, info: CallbackInfo) -> JsResult<JsString> {
        let name: String = info.arg::<JsString>(env, 0)?.cast(env)?;
        let greeting = format!("hello {}", name);
        greeting.cast(env)
    }
}

/// Stores each delivered sum on an object, as a callback would receive it.
struct AddCaller {
    results: usize,
}

impl JsCaller<i32> for AddCaller {
    fn call(&self, env: &mut Env, _func: JsFunction, data: i32) {
        let num: JsNumber = data.cast(env).unwrap();
        let mut target = JsObject::from_raw(env, self.results).unwrap();
        set_named_property(&mut target, env, "sum", &num).unwrap();
    }
}

#[test]
fn hello_greets_by_name() {
    let mut env = Env::new();
    let mut reg = FunctionRegistry::new(&mut env).unwrap();
    let mut exports = JsObject::new(&mut env).unwrap();
    set_function(&mut exports, &mut env, &mut reg, "hello", Hello).unwrap();
    let f: JsFunction = get_named_property(&exports, &mut env, "hello").unwrap().unwrap();
    let name = JsString::new(&mut env, "world").unwrap();
    let r = reg.call_from_host(&mut env, f.as_raw(), exports.as_raw(), &[name.as_raw()]).unwrap();
    let s = JsString::from_raw(&mut env, r).unwrap();
    assert_eq!(s.get_str(&mut env).unwrap(), "hello world");
}

#[test]
fn add_slow_delivers_through_the_bridge() {
    let mut env = Env::new();
    let mut reg = FunctionRegistry::new(&mut env).unwrap();
    let cb = reg.register(&mut env, "cb", Hello).unwrap();
    let results = JsObject::new(&mut env).unwrap();
    let mut ts = ThreadSafeFunction::new(&mut env, cb, AddCaller { results: results.as_raw() }).unwrap();
    ts.call(2 + 3, ThreadsafeFunctionCallMode::Blocking).unwrap();
    assert!(ts.dispatch(&mut env));
    let sum: JsNumber = get_named_property(&results, &mut env, "sum").unwrap().unwrap();
    let v: i32 = sum.cast(&mut env).unwrap();
    assert_eq!(v, 5);
    ts.release(&mut env).unwrap();
}

#[test]
fn array_from_raw_values_keeps_order() {
    let mut env = Env::new();
    let a: JsNumber = 1i64.cast(&mut env).unwrap();
    let b = JsString::new(&mut env, "b").unwrap();
    let arr = JsArray::from_raw_values(&mut env, &[a.as_raw(), b.as_raw()]).unwrap();
    assert_eq!(arr.len(&mut env).unwrap(), 2);
    assert_eq!(arr.get_i64(&mut env, 0).unwrap(), 1);
    assert_eq!(arr.get_str(&mut env, 1).unwrap(), "b");
    let empty = JsArray::from_raw_values(&mut env, &[]).unwrap();
    assert_eq!(empty.len(&mut env).unwrap(), 0);
    assert!(matches!(JsArray::from_raw_values(&mut env, &[77777]), Err(JsError::Error { .. })));
}

#[test]
fn created_function_carries_its_name() {
    let mut env = Env::new();
    let mut reg = FunctionRegistry::new(&mut env).unwrap();
    let f = JsFunction::new(&mut env, &mut reg, "hello", Hello).unwrap();
    assert_eq!(env.function_name(f.as_raw()), Some(&b"hello"[..]));
}
