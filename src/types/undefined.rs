//! `undefined` and `null`.
use vstd::prelude::*;
use crate::env::{Env, HostModel, HostValue, valid, with_value};
use crate::error::JsError;
use crate::sys::{Status, ValueType};
use crate::value::{IntoRawJsValue, JsValue, strict_built};
use crate::JsResult;

verus! {

/// The value `undefined`.
pub struct JsUndefined {
    value: usize,
}

impl JsValue for JsUndefined {
    closed spec fn handle(&self) -> usize {
        self.value
    }

    open spec fn from_raw_spec(pre: HostModel, value: usize, post: HostModel, r: JsResult<Self>) -> bool {
        strict_built(pre, value, post, match r { Ok(x) => Ok(x.handle()), Err(e) => Err(e) }, valid(pre, value) && pre.heap[value as int] is Undefined)
    }

    open spec fn is_kind(m: HostModel, h: usize) -> bool {
        valid(m, h) && m.heap[h as int] is Undefined
    }

    open spec fn is_strict() -> bool {
        true
    }

    proof fn lemma_round_trip(pre: HostModel, h: usize, post: HostModel, r: JsResult<Self>) {
    }

    proof fn lemma_never_coerced(pre: HostModel, h: usize, post: HostModel, r: JsResult<Self>) {
    }

    fn as_raw(&self) -> (r: usize) {
        self.value
    }

    fn from_raw(env: &mut Env, value: usize) -> (r: JsResult<Self>) {
        let (st, t) = env.raw_typeof(value);
        if st != Status::Success {
            return Err(JsError::from_env(env));
        }
        if t != ValueType::Undefined {
            return Err(JsError::TypeMismatch);
        }
        Ok(JsUndefined { value })
    }
}

impl IntoRawJsValue for JsUndefined {
    open spec fn raw_handle(&self) -> usize {
        self.handle()
    }

    fn into_raw_js_value(self) -> (r: usize) {
        self.value
    }
}

impl JsUndefined {
    /// A handle to `undefined`.
    pub fn get(env: &mut Env) -> (r: JsResult<Self>)
        ensures
            final(env)@ == with_value(old(env)@, HostValue::Undefined),
            r matches Ok(x) && x.handle() == old(env)@.heap.len(),
    {
        let (_, value) = env.raw_get_undefined();
        Ok(Self::from_raw_unchecked(value))
    }

    pub(crate) fn from_raw_unchecked(value: usize) -> (r: JsUndefined)
        ensures
            r.handle() == value,
    {
        JsUndefined { value }
    }
}

/// The value `null`.
pub struct JsNull {
    value: usize,
}

impl JsValue for JsNull {
    closed spec fn handle(&self) -> usize {
        self.value
    }

    open spec fn from_raw_spec(pre: HostModel, value: usize, post: HostModel, r: JsResult<Self>) -> bool {
        strict_built(pre, value, post, match r { Ok(x) => Ok(x.handle()), Err(e) => Err(e) }, valid(pre, value) && pre.heap[value as int] is Null)
    }

    open spec fn is_kind(m: HostModel, h: usize) -> bool {
        valid(m, h) && m.heap[h as int] is Null
    }

    open spec fn is_strict() -> bool {
        true
    }

    proof fn lemma_round_trip(pre: HostModel, h: usize, post: HostModel, r: JsResult<Self>) {
    }

    proof fn lemma_never_coerced(pre: HostModel, h: usize, post: HostModel, r: JsResult<Self>) {
    }

    fn as_raw(&self) -> (r: usize) {
        self.value
    }

    fn from_raw(env: &mut Env, value: usize) -> (r: JsResult<Self>) {
        let (st, t) = env.raw_typeof(value);
        if st != Status::Success {
            return Err(JsError::from_env(env));
        }
        if t != ValueType::Null {
            return Err(JsError::TypeMismatch);
        }
        Ok(JsNull { value })
    }
}

impl IntoRawJsValue for JsNull {
    open spec fn raw_handle(&self) -> usize {
        self.handle()
    }

    fn into_raw_js_value(self) -> (r: usize) {
        self.value
    }
}

impl JsNull {
    /// A handle to `null`.
    pub fn get(env: &mut Env) -> (r: JsResult<Self>)
        ensures
            final(env)@ == with_value(old(env)@, HostValue::Null),
            r matches Ok(x) && x.handle() == old(env)@.heap.len(),
    {
        let (_, value) = env.raw_get_null();
        Ok(Self::from_raw_unchecked(value))
    }

    pub(crate) fn from_raw_unchecked(value: usize) -> (r: JsNull)
        ensures
            r.handle() == value,
    {
        JsNull { value }
    }
}

} // verus!
