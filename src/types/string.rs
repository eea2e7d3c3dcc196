//! Strings.
use vstd::prelude::*;
use vstd::string::StringSliceAdditionalSpecFns;
use vstd::utf8::{decode_utf8, encode_utf8, valid_utf8};
use crate::env::{Env, HostModel, failed, heap_grew, holds_text, text_of, valid};
use crate::error::{JsError, error_after};
use crate::sys::{Status, ValueType};
use crate::value::{CastToJs, CastToRust, IntoRawJsValue, JsValue};
use crate::JsResult;

verus! {

/// A string. Built from a value of another type, it holds the host's text
/// for that value.
pub struct JsString {
    value: usize,
}

/// What `coerce_from` does: the host writes the value as text.
pub open spec fn string_coerced(pre: HostModel, v: usize, post: HostModel, r: JsResult<JsString>) -> bool {
    if !valid(pre, v) {
        &&& post == failed(pre, Status::InvalidArg)
        &&& error_after(r, post)
    } else if pre.pending is Some {
        &&& post == failed(pre, Status::PendingException)
        &&& error_after(r, post)
    } else {
        &&& heap_grew(pre, post)
        &&& holds_text(post.heap.last(), text_of(pre.heap[v as int]))
        &&& (r matches Ok(n) && n.handle() == pre.heap.len())
    }
}

/// What building a string from bytes does.
pub open spec fn string_created(pre: HostModel, bytes: Seq<u8>, post: HostModel, r: JsResult<JsString>) -> bool {
    &&& heap_grew(pre, post)
    &&& holds_text(post.heap.last(), bytes)
    &&& (r matches Ok(n) && n.handle() == pre.heap.len())
}

/// What reading a string back does: the text decoded from UTF-8.
pub open spec fn text_read(pre: HostModel, v: usize, post: HostModel, r: JsResult<String>) -> bool {
    if valid(pre, v) && pre.heap[v as int] is Str {
        let b = text_of(pre.heap[v as int]);
        &&& post == pre
        &&& (valid_utf8(b) && b.len() < usize::MAX) ==> (r matches Ok(s) && s@ == decode_utf8(b))
        &&& !(valid_utf8(b) && b.len() < usize::MAX) ==> (r matches Err(JsError::Error { code, .. })
            && code == Status::StringExpected)
    } else {
        &&& post == failed(pre, if valid(pre, v) { Status::StringExpected } else { Status::InvalidArg })
        &&& error_after(r, post)
    }
}

/// Relies on `String::from_utf8`: it accepts exactly the valid UTF-8 byte
/// strings, and decodes them.
#[verifier::external_body]
fn string_from_utf8(bytes: Vec<u8>) -> (r: Option<String>)
    ensures
        r is Some <==> valid_utf8(bytes@),
        r matches Some(s) ==> s@ == decode_utf8(bytes@),
{
    String::from_utf8(bytes).ok()
}

impl JsValue for JsString {
    closed spec fn handle(&self) -> usize {
        self.value
    }

    open spec fn from_raw_spec(pre: HostModel, value: usize, post: HostModel, r: JsResult<Self>) -> bool {
        if valid(pre, value) && pre.heap[value as int] is Str {
            &&& post == pre
            &&& (r matches Ok(n) && n.handle() == value)
        } else {
            string_coerced(pre, value, post, r)
        }
    }

    open spec fn is_kind(m: HostModel, h: usize) -> bool {
        valid(m, h) && m.heap[h as int] is Str
    }

    open spec fn is_strict() -> bool {
        false
    }

    proof fn lemma_round_trip(pre: HostModel, h: usize, post: HostModel, r: JsResult<Self>) {
    }

    proof fn lemma_never_coerced(pre: HostModel, h: usize, post: HostModel, r: JsResult<Self>) {
    }

    fn as_raw(&self) -> (r: usize) {
        self.value
    }

    fn from_raw(env: &mut Env, value: usize) -> (r: JsResult<Self>) {
        let (st, t) = env.raw_typeof(value);
        if st != Status::Success {
            return Err(JsError::from_env(env));
        }
        if t == ValueType::String {
            return Ok(JsString { value });
        }
        JsString::coerce_from(env, value)
    }
}

impl IntoRawJsValue for JsString {
    open spec fn raw_handle(&self) -> usize {
        self.handle()
    }

    fn into_raw_js_value(self) -> (r: usize) {
        self.value
    }
}

impl JsString {
    pub fn new(env: &mut Env, s: &str) -> (r: JsResult<Self>)
        ensures
            string_created(old(env)@, s.spec_bytes(), final(env)@, r),
    {
        Self::from_utf8(env, s.as_bytes())
    }

    pub fn from_utf8(env: &mut Env, bytes: &[u8]) -> (r: JsResult<Self>)
        ensures
            string_created(old(env)@, bytes@, final(env)@, r),
    {
        let (_, value) = env.raw_create_string_utf8(bytes);
        Ok(JsString { value })
    }

    /// The host's text for any value.
    pub fn coerce_from<V: IntoRawJsValue>(env: &mut Env, value: V) -> (r: JsResult<Self>)
        ensures
            string_coerced(old(env)@, value.raw_handle(), final(env)@, r),
    {
        let value = value.into_raw_js_value();
        let (st, result) = env.raw_coerce_to_string(value);
        if st != Status::Success {
            return Err(JsError::from_env(env));
        }
        Ok(JsString { value: result })
    }

    /// The text of this string. The host is asked first for the length in
    /// bytes, then for the bytes into room for them and a terminator.
    pub fn get_str(&self, env: &mut Env) -> (r: JsResult<String>)
        ensures
            text_read(old(env)@, self.handle(), final(env)@, r),
    {
        let (st, _, size) = env.raw_get_value_string_utf8(self.value, 0);
        if st != Status::Success {
            return Err(JsError::from_env(env));
        }
        if size == usize::MAX {
            return Err(JsError::Error { code: Status::StringExpected, message: "string too long" });
        }
        let (st, data, copied) = env.raw_get_value_string_utf8(self.value, size + 1);
        if st != Status::Success {
            return Err(JsError::from_env(env));
        }
        proof {
            let ghost b = text_of(old(env)@.heap[self.handle() as int]);
            assert(data@ =~= b);
        }
        match string_from_utf8(data) {
            Some(s) => Ok(s),
            None => Err(JsError::Error { code: Status::StringExpected, message: "string is not UTF-8" }),
        }
    }
}

impl CastToRust<String> for JsString {
    open spec fn cast_spec(&self, pre: HostModel, post: HostModel, r: JsResult<String>) -> bool {
        text_read(pre, self.handle(), post, r)
    }

    fn cast(&self, env: &mut Env) -> (r: JsResult<String>) {
        self.get_str(env)
    }
}

impl<'s> CastToJs<JsString> for &'s str {
    open spec fn cast_spec(&self, pre: HostModel, post: HostModel, r: JsResult<JsString>) -> bool {
        string_created(pre, (*self).spec_bytes(), post, r)
    }

    fn cast(&self, env: &mut Env) -> (r: JsResult<JsString>) {
        JsString::new(env, *self)
    }
}

impl CastToJs<JsString> for String {
    open spec fn cast_spec(&self, pre: HostModel, post: HostModel, r: JsResult<JsString>) -> bool {
        string_created(pre, encode_utf8(self@), post, r)
    }

    fn cast(&self, env: &mut Env) -> (r: JsResult<JsString>) {
        JsString::new(env, self.as_str())
    }
}

} // verus!
