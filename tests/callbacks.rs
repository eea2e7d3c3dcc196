use napi::callback::{set_function, Callback, CallbackInfo, FunctionRegistry};
use napi::env::Env;
use napi::error::JsError;
use napi::sys::Status;
use napi::types::{JsArgv, JsFunction, JsNumber, JsObject, JsString};
use napi::value::{get_named_property, CastToJs, CastToRust, JsValue, JsValueRaw};
use napi::JsResult;

struct Add;

impl Callback<JsNumber> for Add {
    fn call(&self, env: &mut Env, info: CallbackInfo) -> JsResult<JsNumber> {
        let a: JsNumber = info.arg(env, 0)?;
        let b: JsNumber = info.arg(env, 1)?;
        let x: i64 = a.cast(env)?;
        let y: i64 = b.cast(env)?;
        (x + y).cast(env)
    }
}

struct Count;

impl Callback<JsNumber> for Count {
    fn call(&self, env: &mut Env, info: CallbackInfo) -> JsResult<JsNumber> {
        let mut sum: i64 = 0;
        for i in 0..info.argv_len() {
            let n: JsNumber = info.arg(env, i)?;
            let v: i64 = n.cast(env)?;
            sum = sum * 10 + v;
        }
        (info.argv_len() as i64 * 1000000000 + sum).cast(env)
    }
}

struct Fails;

impl Callback<JsValueRaw> for Fails {
    fn call(&self, _env: &mut Env, _info: CallbackInfo) -> JsResult<JsValueRaw> {
        Err(JsError::Error { code: Status::GenericFailure, message: "native failure" })
    }
}

fn numbers(env: &mut Env, values: &[i64]) -> Vec<usize> {
    values.iter().map(|v| {
        let n: JsNumber = v.cast(env).unwrap();
        n.as_raw()
    }).collect()
}

fn read_i64(env: &mut Env, h: usize) -> i64 {
    let n = JsNumber::from_raw(env, h).unwrap();
    let v: i64 = n.cast(env).unwrap();
    v
}

#[test]
fn add_two_and_three_is_five() {
    let mut env = Env::new();
    let mut reg = FunctionRegistry::new(&mut env).unwrap();
    let add = reg.register(&mut env, "add", Add).unwrap();
    let this = JsObject::new(&mut env).unwrap().as_raw();
    let args = numbers(&mut env, &[2, 3]);
    let r = reg.call_from_host(&mut env, add.as_raw(), this, &args).unwrap();
    assert_eq!(read_i64(&mut env, r), 5);
    assert!(!env.raw_is_exception_pending());
    assert_eq!(env.frame_count(), 0);
}

#[test]
fn add_with_one_argument_is_out_of_bounds() {
    let mut env = Env::new();
    let mut reg = FunctionRegistry::new(&mut env).unwrap();
    let add = JsFunction::new(&mut env, &mut reg, "add", Add).unwrap();
    let this = JsObject::new(&mut env).unwrap().as_raw();
    let args = numbers(&mut env, &[2]);
    assert!(reg.call_from_host(&mut env, add.as_raw(), this, &args).is_none());
    let e = env.raw_get_and_clear_last_exception().unwrap();
    assert_eq!(e.message, b"callback.arg: index out of bounds".to_vec());
}

#[test]
fn more_than_six_arguments_all_arrive() {
    let mut env = Env::new();
    let mut reg = FunctionRegistry::new(&mut env).unwrap();
    let f = reg.register(&mut env, "count", Count).unwrap();
    let this = JsObject::new(&mut env).unwrap().as_raw();
    let args = numbers(&mut env, &[1, 2, 3, 4, 5, 6, 7, 8]);
    let r = reg.call_from_host(&mut env, f.as_raw(), this, &args).unwrap();
    assert_eq!(read_i64(&mut env, r), 8 * 1000000000 + 12345678);
    let six = numbers(&mut env, &[9, 8, 7, 6, 5, 4]);
    let r = reg.call_from_host(&mut env, f.as_raw(), this, &six).unwrap();
    assert_eq!(read_i64(&mut env, r), 6 * 1000000000 + 987654);
    let r = reg.call_from_host(&mut env, f.as_raw(), this, &[]).unwrap();
    assert_eq!(read_i64(&mut env, r), 0);
}

#[test]
fn callback_info_reads_the_whole_record() {
    let mut env = Env::new();
    let mut reg = FunctionRegistry::new(&mut env).unwrap();
    let f = reg.register(&mut env, "count", Count).unwrap();
    let this = JsObject::new(&mut env).unwrap().as_raw();
    let args = numbers(&mut env, &[1, 2, 3, 4, 5, 6, 7, 8, 9]);
    let (st, info) = env.begin_call(f.as_raw(), this, &args);
    assert_eq!(st, Status::Success);
    let ci = CallbackInfo::from_raw(&mut env, info).unwrap();
    assert_eq!(ci.argv_len(), 9);
    assert_eq!(ci.this.as_raw(), this);
    let _ = JsObject::from_raw(&mut env, ci.this.as_raw()).unwrap();
    assert_eq!(ci.arg_raw(8).unwrap().as_raw(), args[8]);
    assert!(ci.arg_raw(9).is_none());
    env.end_call();
    assert!(matches!(CallbackInfo::from_raw(&mut env, info), Err(JsError::Error { code: Status::InvalidArg, .. })));
}

#[test]
fn a_failing_callback_throws_and_returns_nothing() {
    let mut env = Env::new();
    let mut reg = FunctionRegistry::new(&mut env).unwrap();
    let f = reg.register(&mut env, "fails", Fails).unwrap();
    let this = JsObject::new(&mut env).unwrap().as_raw();
    assert!(reg.call_from_host(&mut env, f.as_raw(), this, &[]).is_none());
    let e = env.raw_get_and_clear_last_exception().unwrap();
    assert_eq!(e.message, b"native failure".to_vec());
}

#[test]
fn a_function_of_another_registry_is_refused() {
    let mut env = Env::new();
    let mut reg = FunctionRegistry::new(&mut env).unwrap();
    let other = FunctionRegistry::<Add>::new(&mut env).unwrap();
    let f = reg.register(&mut env, "add", Add).unwrap();
    let this = JsObject::new(&mut env).unwrap().as_raw();
    let args = numbers(&mut env, &[2, 3]);
    assert!(other.call_from_host(&mut env, f.as_raw(), this, &args).is_none());
    let e = env.raw_get_and_clear_last_exception().unwrap();
    assert_eq!(e.message, b"function is not registered here".to_vec());
    let s = JsString::new(&mut env, "x").unwrap();
    assert!(reg.call_from_host(&mut env, s.as_raw(), this, &args).is_none());
}

#[test]
fn finish_call_hands_back_or_throws() {
    let mut env = Env::new();
    assert_eq!(napi::callback::finish_call(&mut env, Ok(3)), Some(3));
    assert!(!env.raw_is_exception_pending());
    assert_eq!(napi::callback::finish_call(&mut env, Err(JsError::TypeMismatch)), None);
    assert!(env.raw_is_exception_pending());
}

#[test]
fn calling_a_function_from_native_code() {
    let mut env = Env::new();
    let mut reg = FunctionRegistry::new(&mut env).unwrap();
    let add = reg.register(&mut env, "add", Add).unwrap();
    let this = JsObject::new(&mut env).unwrap();
    let two: JsNumber = 2i64.cast(&mut env).unwrap();
    let forty: JsNumber = 40i64.cast(&mut env).unwrap();
    let r: JsNumber = add.call2(&mut env, &reg, &this, two, forty).unwrap();
    let v: i64 = r.cast(&mut env).unwrap();
    assert_eq!(v, 42);
    let mut argv = JsArgv::new();
    let one: JsNumber = 1i64.cast(&mut env).unwrap();
    argv.push(one);
    assert!(matches!(add.call_r(&mut env, &reg, &this, argv), Err(JsError::PendingException)));
}

#[test]
fn set_function_stores_the_function() {
    let mut env = Env::new();
    let mut reg = FunctionRegistry::new(&mut env).unwrap();
    let mut exports = JsObject::new(&mut env).unwrap();
    set_function(&mut exports, &mut env, &mut reg, "add", Add).unwrap();
    let f: Option<JsFunction> = get_named_property(&exports, &mut env, "add").unwrap();
    let f = f.unwrap();
    let args = numbers(&mut env, &[20, 22]);
    let r = reg.call_from_host(&mut env, f.as_raw(), exports.as_raw(), &args).unwrap();
    assert_eq!(read_i64(&mut env, r), 42);
}

#[test]
fn any_receiver_is_taken_as_it_is() {
    let mut env = Env::new();
    let mut reg = FunctionRegistry::new(&mut env).unwrap();
    let f = reg.register(&mut env, "count", Count).unwrap();
    let this = env.undefined().unwrap().as_raw();
    let args = numbers(&mut env, &[1, 2, 3, 4, 5, 6, 7]);
    let r = reg.call_from_host(&mut env, f.as_raw(), this, &args).unwrap();
    assert_eq!(read_i64(&mut env, r), 7 * 1000000000 + 1234567);
}
