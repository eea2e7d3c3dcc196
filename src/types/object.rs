//! Objects.
use vstd::prelude::*;
use vstd::string::StringSliceAdditionalSpecFns;
use crate::env::{Env, HostModel, HostValue, failed, is_object_like, raised, valid, with_value};
use crate::error::{JsError, error_after};
use crate::sys::{Status, ValueType};
use crate::value::{IntoRawJsValue, JsValue};
use crate::JsResult;

verus! {

/// An object. Built from a value that is not one, it holds the host's
/// object for that value.
pub struct JsObject {
    value: usize,
}

/// What `coerce_from` does: objects stay as they are, `undefined` and
/// `null` raise a type error, other values get a wrapper object.
pub open spec fn object_coerced(pre: HostModel, v: usize, post: HostModel, r: JsResult<JsObject>) -> bool {
    if !valid(pre, v) {
        &&& post == failed(pre, Status::InvalidArg)
        &&& error_after(r, post)
    } else if pre.pending is Some {
        &&& post == failed(pre, Status::PendingException)
        &&& error_after(r, post)
    } else if is_object_like(pre.heap[v as int]) {
        &&& post == pre
        &&& (r matches Ok(n) && n.handle() == v)
    } else if pre.heap[v as int] is Undefined || pre.heap[v as int] is Null {
        &&& raised(pre, post, None, "cannot convert to object".spec_bytes())
        &&& error_after(r, post)
    } else {
        &&& post == with_value(pre, HostValue::Object)
        &&& (r matches Ok(n) && n.handle() == pre.heap.len())
    }
}

impl JsValue for JsObject {
    closed spec fn handle(&self) -> usize {
        self.value
    }

    open spec fn from_raw_spec(pre: HostModel, value: usize, post: HostModel, r: JsResult<Self>) -> bool {
        if valid(pre, value) && is_object_like(pre.heap[value as int]) {
            &&& post == pre
            &&& (r matches Ok(n) && n.handle() == value)
        } else {
            object_coerced(pre, value, post, r)
        }
    }

    open spec fn is_kind(m: HostModel, h: usize) -> bool {
        valid(m, h) && is_object_like(m.heap[h as int])
    }

    open spec fn is_strict() -> bool {
        false
    }

    proof fn lemma_round_trip(pre: HostModel, h: usize, post: HostModel, r: JsResult<Self>) {
    }

    proof fn lemma_never_coerced(pre: HostModel, h: usize, post: HostModel, r: JsResult<Self>) {
    }

    fn as_raw(&self) -> (r: usize) {
        self.value
    }

    fn from_raw(env: &mut Env, value: usize) -> (r: JsResult<Self>) {
        let (st, t) = env.raw_typeof(value);
        if st != Status::Success {
            return Err(JsError::from_env(env));
        }
        if t == ValueType::Object || t == ValueType::Function {
            return Ok(JsObject { value });
        }
        JsObject::coerce_from(env, value)
    }
}

impl IntoRawJsValue for JsObject {
    open spec fn raw_handle(&self) -> usize {
        self.handle()
    }

    fn into_raw_js_value(self) -> (r: usize) {
        self.value
    }
}

impl JsObject {
    /// A new empty object.
    pub fn new(env: &mut Env) -> (r: JsResult<Self>)
        ensures
            final(env)@ == with_value(old(env)@, HostValue::Object),
            r matches Ok(x) && x.handle() == old(env)@.heap.len(),
    {
        let (_, value) = env.raw_create_object();
        Ok(JsObject { value })
    }

    pub(crate) fn from_raw_unchecked(value: usize) -> (r: JsObject)
        ensures
            r.handle() == value,
    {
        JsObject { value }
    }

    /// Builds the variant `T` from this object's handle.
    pub fn downcast<T: JsValue>(self, env: &mut Env) -> (r: JsResult<T>)
        ensures
            T::from_raw_spec(old(env)@, self.handle(), final(env)@, r),
    {
        T::from_raw(env, self.value)
    }

    /// The host's object for any value.
    pub fn coerce_from<V: IntoRawJsValue>(env: &mut Env, value: V) -> (r: JsResult<JsObject>)
        ensures
            object_coerced(old(env)@, value.raw_handle(), final(env)@, r),
    {
        let value = value.into_raw_js_value();
        let (st, result) = env.raw_coerce_to_object(value);
        if st != Status::Success {
            return Err(JsError::from_env(env));
        }
        Ok(JsObject { value: result })
    }
}

} // verus!
