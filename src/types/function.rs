//! Functions and argument lists.
use vstd::prelude::*;
use crate::env::{Env, HostModel, valid};
use crate::error::JsError;
use crate::sys::{Status, ValueType};
use crate::value::{IntoRawJsValue, JsValue, strict_built};
use crate::JsResult;

verus! {

/// The arguments of a call, as raw handles in order.
pub struct JsArgv {
    values: Vec<usize>,
}

impl JsArgv {
    pub closed spec fn handles(&self) -> Seq<usize> {
        self.values@
    }

    /// An empty argument list.
    pub fn new() -> (r: JsArgv)
        ensures
            r.handles().len() == 0,
    {
        JsArgv { values: Vec::new() }
    }

    /// Appends an argument.
    pub fn push<V: IntoRawJsValue>(&mut self, value: V)
        ensures
            final(self).handles() == old(self).handles().push(value.raw_handle()),
    {
        self.values.push(value.into_raw_js_value())
    }

    /// The arguments, in order.
    pub fn as_slice(&self) -> (r: &[usize])
        ensures
            r@ == self.handles(),
    {
        self.values.as_slice()
    }
}

/// A function. Built only from a value whose type the host reports as a
/// function.
pub struct JsFunction {
    value: usize,
}

impl JsValue for JsFunction {
    closed spec fn handle(&self) -> usize {
        self.value
    }

    open spec fn from_raw_spec(pre: HostModel, value: usize, post: HostModel, r: JsResult<Self>) -> bool {
        strict_built(pre, value, post, match r { Ok(x) => Ok(x.handle()), Err(e) => Err(e) },
            valid(pre, value) && pre.heap[value as int] is Function)
    }

    open spec fn is_kind(m: HostModel, h: usize) -> bool {
        valid(m, h) && m.heap[h as int] is Function
    }

    open spec fn is_strict() -> bool {
        true
    }

    proof fn lemma_round_trip(pre: HostModel, h: usize, post: HostModel, r: JsResult<Self>) {
    }

    proof fn lemma_never_coerced(pre: HostModel, h: usize, post: HostModel, r: JsResult<Self>) {
    }

    fn as_raw(&self) -> (r: usize) {
        self.value
    }

    fn from_raw(env: &mut Env, value: usize) -> (r: JsResult<Self>) {
        let (st, t) = env.raw_typeof(value);
        if st != Status::Success {
            return Err(JsError::from_env(env));
        }
        if t != ValueType::Function {
            return Err(JsError::TypeMismatch);
        }
        Ok(JsFunction { value })
    }
}

impl IntoRawJsValue for JsFunction {
    open spec fn raw_handle(&self) -> usize {
        self.handle()
    }

    fn into_raw_js_value(self) -> (r: usize) {
        self.value
    }
}

impl JsFunction {
    pub(crate) fn from_raw_unchecked(value: usize) -> (r: JsFunction)
        ensures
            r.handle() == value,
    {
        JsFunction { value }
    }
}

} // verus!
