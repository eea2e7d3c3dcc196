//! Byte buffers.
use vstd::prelude::*;
use crate::env::{Env, HostModel, HostValue, heap_grew, holds_bytes, valid};
use crate::error::JsError;
use crate::sys::Status;
use crate::value::{CastToJs, CastToRust, IntoRawJsValue, JsValue, strict_built};
use crate::JsResult;
use vstd::slice::slice_to_vec;

verus! {

/// A buffer of bytes that the host owns. Built only from a value that the
/// host reports as a buffer.
pub struct JsBuffer {
    value: usize,
}

/// What copying bytes into a new buffer does.
pub open spec fn buffer_created(pre: HostModel, bytes: Seq<u8>, post: HostModel, r: JsResult<JsBuffer>) -> bool {
    &&& heap_grew(pre, post)
    &&& holds_bytes(post.heap.last(), bytes)
    &&& (r matches Ok(n) && n.handle() == pre.heap.len())
}

/// The bytes that a buffer holds, or `None` for another value.
pub open spec fn bytes_at(m: HostModel, v: usize) -> Option<Seq<u8>> {
    if valid(m, v) {
        match m.heap[v as int] {
            HostValue::Buffer(b) => Some(b@),
            _ => None,
        }
    } else {
        None
    }
}

impl JsValue for JsBuffer {
    closed spec fn handle(&self) -> usize {
        self.value
    }

    open spec fn from_raw_spec(pre: HostModel, value: usize, post: HostModel, r: JsResult<Self>) -> bool {
        strict_built(pre, value, post, match r { Ok(x) => Ok(x.handle()), Err(e) => Err(e) },
            valid(pre, value) && pre.heap[value as int] is Buffer)
    }

    open spec fn is_kind(m: HostModel, h: usize) -> bool {
        valid(m, h) && m.heap[h as int] is Buffer
    }

    open spec fn is_strict() -> bool {
        true
    }

    proof fn lemma_round_trip(pre: HostModel, h: usize, post: HostModel, r: JsResult<Self>) {
    }

    proof fn lemma_never_coerced(pre: HostModel, h: usize, post: HostModel, r: JsResult<Self>) {
    }

    fn as_raw(&self) -> (r: usize) {
        self.value
    }

    fn from_raw(env: &mut Env, value: usize) -> (r: JsResult<Self>) {
        let (st, is_buffer) = env.raw_is_buffer(value);
        if st != Status::Success {
            return Err(JsError::from_env(env));
        }
        if !is_buffer {
            return Err(JsError::TypeMismatch);
        }
        Ok(JsBuffer { value })
    }
}

impl IntoRawJsValue for JsBuffer {
    open spec fn raw_handle(&self) -> usize {
        self.handle()
    }

    fn into_raw_js_value(self) -> (r: usize) {
        self.value
    }
}

impl JsBuffer {
    /// A new buffer holding a copy of the bytes.
    pub fn copy_bytes(env: &mut Env, bytes: &[u8]) -> (r: JsResult<Self>)
        ensures
            buffer_created(old(env)@, bytes@, final(env)@, r),
    {
        let (_, value) = env.raw_create_buffer_copy(bytes);
        Ok(JsBuffer { value })
    }

    /// A view of the bytes, as long as the host reports them; it lives no
    /// longer than the borrow of the host.
    pub fn as_bytes<'e>(&self, env: &'e Env) -> (r: JsResult<&'e [u8]>)
        ensures
            bytes_at(env@, self.handle()) matches Some(b) ==> (r matches Ok(s) && s@ == b),
            bytes_at(env@, self.handle()) is None ==> (r matches Err(JsError::Error { code, .. })
                && code == Status::InvalidArg),
    {
        match env.raw_get_buffer_info(self.value) {
            Ok(s) => Ok(s),
            Err(code) => Err(JsError::Error { code, message: "not a buffer" }),
        }
    }
}

impl CastToRust<Vec<u8>> for JsBuffer {
    open spec fn cast_spec(&self, pre: HostModel, post: HostModel, r: JsResult<Vec<u8>>) -> bool {
        &&& post == pre
        &&& bytes_at(pre, self.handle()) matches Some(b) ==> (r matches Ok(v) && v@ == b)
        &&& bytes_at(pre, self.handle()) is None ==> (r matches Err(JsError::Error { code, .. })
            && code == Status::InvalidArg)
    }

    fn cast(&self, env: &mut Env) -> (r: JsResult<Vec<u8>>) {
        match self.as_bytes(env) {
            Ok(s) => Ok(slice_to_vec(s)),
            Err(e) => Err(e),
        }
    }
}

impl<'b> CastToJs<JsBuffer> for &'b [u8] {
    open spec fn cast_spec(&self, pre: HostModel, post: HostModel, r: JsResult<JsBuffer>) -> bool {
        buffer_created(pre, (*self)@, post, r)
    }

    fn cast(&self, env: &mut Env) -> (r: JsResult<JsBuffer>) {
        JsBuffer::copy_bytes(env, *self)
    }
}

impl CastToJs<JsBuffer> for Vec<u8> {
    open spec fn cast_spec(&self, pre: HostModel, post: HostModel, r: JsResult<JsBuffer>) -> bool {
        buffer_created(pre, self@, post, r)
    }

    fn cast(&self, env: &mut Env) -> (r: JsResult<JsBuffer>) {
        JsBuffer::copy_bytes(env, self.as_slice())
    }
}

} // verus!
