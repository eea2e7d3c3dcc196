//! Booleans.
use vstd::prelude::*;
use crate::env::{Env, HostModel, HostValue, bool_of, failed, valid, with_value};
use crate::error::{JsError, error_after};
use crate::sys::{Status, ValueType};
use crate::value::{CastToJs, CastToRust, IntoRawJsValue, JsValue};
use crate::JsResult;

verus! {

/// A boolean. Built from a value of another type, it holds the host's
/// reading of that value as a boolean.
pub struct JsBool {
    value: usize,
}

/// What `coerce_from` does: the host reads the value as a boolean.
pub open spec fn bool_coerced(pre: HostModel, v: usize, post: HostModel, r: JsResult<JsBool>) -> bool {
    if !valid(pre, v) {
        &&& post == failed(pre, Status::InvalidArg)
        &&& error_after(r, post)
    } else if pre.pending is Some {
        &&& post == failed(pre, Status::PendingException)
        &&& error_after(r, post)
    } else {
        &&& post == with_value(pre, HostValue::Boolean(bool_of(pre.heap[v as int])))
        &&& (r matches Ok(n) && n.handle() == pre.heap.len())
    }
}

impl JsValue for JsBool {
    closed spec fn handle(&self) -> usize {
        self.value
    }

    open spec fn from_raw_spec(pre: HostModel, value: usize, post: HostModel, r: JsResult<Self>) -> bool {
        if valid(pre, value) && pre.heap[value as int] is Boolean {
            &&& post == pre
            &&& (r matches Ok(n) && n.handle() == value)
        } else {
            bool_coerced(pre, value, post, r)
        }
    }

    open spec fn is_kind(m: HostModel, h: usize) -> bool {
        valid(m, h) && m.heap[h as int] is Boolean
    }

    open spec fn is_strict() -> bool {
        false
    }

    proof fn lemma_round_trip(pre: HostModel, h: usize, post: HostModel, r: JsResult<Self>) {
    }

    proof fn lemma_never_coerced(pre: HostModel, h: usize, post: HostModel, r: JsResult<Self>) {
    }

    fn as_raw(&self) -> (r: usize) {
        self.value
    }

    fn from_raw(env: &mut Env, value: usize) -> (r: JsResult<Self>) {
        let (st, t) = env.raw_typeof(value);
        if st != Status::Success {
            return Err(JsError::from_env(env));
        }
        if t == ValueType::Boolean {
            return Ok(JsBool { value });
        }
        JsBool::coerce_from(env, value)
    }
}

impl IntoRawJsValue for JsBool {
    open spec fn raw_handle(&self) -> usize {
        self.handle()
    }

    fn into_raw_js_value(self) -> (r: usize) {
        self.value
    }
}

impl JsBool {
    pub fn new(env: &mut Env, b: bool) -> (r: JsResult<Self>)
        ensures
            final(env)@ == with_value(old(env)@, HostValue::Boolean(b)),
            r matches Ok(x) && x.handle() == old(env)@.heap.len(),
    {
        let (_, value) = env.raw_get_boolean(b);
        Ok(JsBool { value })
    }

    /// The boolean this value holds.
    pub fn get_bool(&self, env: &mut Env) -> (r: JsResult<bool>)
        ensures
            valid(old(env)@, self.handle()) && old(env)@.heap[self.handle() as int] is Boolean ==> {
                &&& final(env)@ == old(env)@
                &&& r == Ok::<bool, JsError>(bool_of(old(env)@.heap[self.handle() as int]))
            },
            !(valid(old(env)@, self.handle()) && old(env)@.heap[self.handle() as int] is Boolean) ==> {
                &&& final(env)@ == failed(old(env)@,
                    if valid(old(env)@, self.handle()) { Status::BooleanExpected } else { Status::InvalidArg })
                &&& error_after(r, final(env)@)
            },
    {
        let (st, b) = env.raw_get_value_bool(self.value);
        if st != Status::Success {
            return Err(JsError::from_env(env));
        }
        Ok(b)
    }

    /// The host's reading of any value as a boolean.
    pub fn coerce_from<V: IntoRawJsValue>(env: &mut Env, value: V) -> (r: JsResult<Self>)
        ensures
            bool_coerced(old(env)@, value.raw_handle(), final(env)@, r),
    {
        let value = value.into_raw_js_value();
        let (st, result) = env.raw_coerce_to_bool(value);
        if st != Status::Success {
            return Err(JsError::from_env(env));
        }
        Ok(JsBool { value: result })
    }
}

impl CastToRust<bool> for JsBool {
    open spec fn cast_spec(&self, pre: HostModel, post: HostModel, r: JsResult<bool>) -> bool {
        if valid(pre, self.handle()) && pre.heap[self.handle() as int] is Boolean {
            &&& post == pre
            &&& r == Ok::<bool, JsError>(bool_of(pre.heap[self.handle() as int]))
        } else {
            &&& post == failed(pre, if valid(pre, self.handle()) { Status::BooleanExpected } else { Status::InvalidArg })
            &&& error_after(r, post)
        }
    }

    fn cast(&self, env: &mut Env) -> (r: JsResult<bool>) {
        self.get_bool(env)
    }
}

impl CastToJs<JsBool> for bool {
    open spec fn cast_spec(&self, pre: HostModel, post: HostModel, r: JsResult<JsBool>) -> bool {
        &&& post == with_value(pre, HostValue::Boolean(*self))
        &&& (r matches Ok(x) && x.handle() == pre.heap.len())
    }

    fn cast(&self, env: &mut Env) -> (r: JsResult<JsBool>) {
        JsBool::new(env, *self)
    }
}

} // verus!
