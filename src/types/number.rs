//! Numbers.
use vstd::prelude::*;
use crate::env::{Env, HostModel, HostValue, Num, failed, number_of, valid, with_value};
use crate::error::{JsError, error_after};
use crate::sys::{Status, ValueType};
use crate::value::{CastToJs, CastToRust, IntoRawJsValue, JsValue};
use crate::JsResult;

verus! {

/// A number. Built from a value of another type, it holds the host's
/// reading of that value as a number.
pub struct JsNumber {
    value: usize,
}

/// What `coerce_from` does: the host reads the value as a number.
pub open spec fn number_coerced(pre: HostModel, v: usize, post: HostModel, r: JsResult<JsNumber>) -> bool {
    if !valid(pre, v) {
        &&& post == failed(pre, Status::InvalidArg)
        &&& error_after(r, post)
    } else if pre.pending is Some {
        &&& post == failed(pre, Status::PendingException)
        &&& error_after(r, post)
    } else {
        &&& post == with_value(pre, HostValue::Number(number_of(pre.heap[v as int])))
        &&& (r matches Ok(n) && n.handle() == pre.heap.len())
    }
}

impl JsValue for JsNumber {
    closed spec fn handle(&self) -> usize {
        self.value
    }

    open spec fn from_raw_spec(pre: HostModel, value: usize, post: HostModel, r: JsResult<Self>) -> bool {
        if valid(pre, value) && pre.heap[value as int] is Number {
            &&& post == pre
            &&& (r matches Ok(n) && n.handle() == value)
        } else {
            number_coerced(pre, value, post, r)
        }
    }

    open spec fn is_kind(m: HostModel, h: usize) -> bool {
        valid(m, h) && m.heap[h as int] is Number
    }

    open spec fn is_strict() -> bool {
        false
    }

    proof fn lemma_round_trip(pre: HostModel, h: usize, post: HostModel, r: JsResult<Self>) {
    }

    proof fn lemma_never_coerced(pre: HostModel, h: usize, post: HostModel, r: JsResult<Self>) {
    }

    fn as_raw(&self) -> (r: usize) {
        self.value
    }

    fn from_raw(env: &mut Env, value: usize) -> (r: JsResult<Self>) {
        let (st, t) = env.raw_typeof(value);
        if st != Status::Success {
            return Err(JsError::from_env(env));
        }
        if t == ValueType::Number {
            return Ok(JsNumber { value });
        }
        JsNumber::coerce_from(env, value)
    }
}

impl IntoRawJsValue for JsNumber {
    open spec fn raw_handle(&self) -> usize {
        self.handle()
    }

    fn into_raw_js_value(self) -> (r: usize) {
        self.value
    }
}

impl JsNumber {
    /// The host's reading of any value as a number.
    pub fn coerce_from<V: IntoRawJsValue>(env: &mut Env, value: V) -> (r: JsResult<Self>)
        ensures
            number_coerced(old(env)@, value.raw_handle(), final(env)@, r),
    {
        let value = value.into_raw_js_value();
        let (st, result) = env.raw_coerce_to_number(value);
        if st != Status::Success {
            return Err(JsError::from_env(env));
        }
        Ok(JsNumber { value: result })
    }

    fn from_int(env: &mut Env, n: i64) -> (r: JsResult<Self>)
        ensures
            final(env)@ == with_value(old(env)@, HostValue::Number(Num::Int(n))),
            r matches Ok(x) && x.handle() == old(env)@.heap.len(),
    {
        let (_, value) = env.raw_create_int64(n);
        Ok(JsNumber { value })
    }
}

impl CastToJs<JsNumber> for i32 {
    open spec fn cast_spec(&self, pre: HostModel, post: HostModel, r: JsResult<JsNumber>) -> bool {
        &&& post == with_value(pre, HostValue::Number(Num::Int(*self as i64)))
        &&& (r matches Ok(x) && x.handle() == pre.heap.len())
    }

    fn cast(&self, env: &mut Env) -> (r: JsResult<JsNumber>) {
        JsNumber::from_int(env, *self as i64)
    }
}

impl CastToJs<JsNumber> for u32 {
    open spec fn cast_spec(&self, pre: HostModel, post: HostModel, r: JsResult<JsNumber>) -> bool {
        &&& post == with_value(pre, HostValue::Number(Num::Int(*self as i64)))
        &&& (r matches Ok(x) && x.handle() == pre.heap.len())
    }

    fn cast(&self, env: &mut Env) -> (r: JsResult<JsNumber>) {
        JsNumber::from_int(env, *self as i64)
    }
}

impl CastToJs<JsNumber> for i64 {
    open spec fn cast_spec(&self, pre: HostModel, post: HostModel, r: JsResult<JsNumber>) -> bool {
        &&& post == with_value(pre, HostValue::Number(Num::Int(*self)))
        &&& (r matches Ok(x) && x.handle() == pre.heap.len())
    }

    fn cast(&self, env: &mut Env) -> (r: JsResult<JsNumber>) {
        JsNumber::from_int(env, *self)
    }
}

/// The integer that the host reads from a number; not a number reads as zero.
pub open spec fn int_of(v: HostValue) -> i64 {
    match v {
        HostValue::Number(Num::Int(n)) => n,
        _ => 0,
    }
}

/// A failed read of a value that is not a number.
pub open spec fn not_a_number<T>(pre: HostModel, v: usize, post: HostModel, r: JsResult<T>) -> bool {
    &&& post == failed(pre, if valid(pre, v) { Status::NumberExpected } else { Status::InvalidArg })
    &&& error_after(r, post)
}

/// The handle names a number.
pub open spec fn is_number_at(m: HostModel, v: usize) -> bool {
    valid(m, v) && m.heap[v as int] is Number
}

impl CastToRust<i64> for JsNumber {
    open spec fn cast_spec(&self, pre: HostModel, post: HostModel, r: JsResult<i64>) -> bool {
        if is_number_at(pre, self.handle()) {
            &&& post == pre
            &&& r == Ok::<i64, JsError>(int_of(pre.heap[self.handle() as int]))
        } else {
            not_a_number(pre, self.handle(), post, r)
        }
    }

    fn cast(&self, env: &mut Env) -> (r: JsResult<i64>) {
        let (st, n) = env.raw_get_value_int64(self.value);
        if st != Status::Success {
            return Err(JsError::from_env(env));
        }
        Ok(n)
    }
}

/// The integer wraps around to 32 bits.
impl CastToRust<i32> for JsNumber {
    open spec fn cast_spec(&self, pre: HostModel, post: HostModel, r: JsResult<i32>) -> bool {
        if is_number_at(pre, self.handle()) {
            &&& post == pre
            &&& r == Ok::<i32, JsError>(int_of(pre.heap[self.handle() as int]) as i32)
        } else {
            not_a_number(pre, self.handle(), post, r)
        }
    }

    fn cast(&self, env: &mut Env) -> (r: JsResult<i32>) {
        let (st, n) = env.raw_get_value_int64(self.value);
        if st != Status::Success {
            return Err(JsError::from_env(env));
        }
        Ok(n as i32)
    }
}

} // verus!
