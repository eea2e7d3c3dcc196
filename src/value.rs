//! The capability that every value variant provides.
use vstd::prelude::*;
use crate::env::{Env, HostModel, failed, key_failure, key_text, named_has, named_read, named_written, valid};
use crate::types::{JsBool, JsNumber, JsObject, JsString};
use crate::types::boolean::bool_coerced;
use crate::types::number::number_coerced;
use crate::types::object::object_coerced;
use crate::types::string::string_coerced;
use vstd::string::StringSliceAdditionalSpecFns;
use crate::error::{JsError, error_after};
use crate::sys::{Status, ValueType};
use crate::env::is_object_like;
use crate::JsResult;

verus! {

/// What building a strict variant does: a value that passes the host's
/// check (`accepted`) is kept as it is; any other is refused with
/// `TypeMismatch` and never coerced.
/// `r` is the result with the value replaced by its handle.
pub open spec fn strict_built(pre: HostModel, v: usize, post: HostModel, r: JsResult<usize>, accepted: bool) -> bool {
    if !valid(pre, v) {
        &&& post == failed(pre, Status::InvalidArg)
        &&& error_after(r, post)
    } else if accepted {
        &&& post == pre
        &&& r == Ok::<usize, JsError>(v)
    } else {
        &&& post == pre
        &&& (r matches Err(JsError::TypeMismatch))
    }
}

/// Turns something into the raw handle that the boundary takes.
pub trait IntoRawJsValue: Sized {
    /// The handle that `into_raw_js_value` gives.
    spec fn raw_handle(&self) -> usize;

    fn into_raw_js_value(self) -> (r: usize)
        ensures
            r == self.raw_handle(),
    ;
}

impl IntoRawJsValue for usize {
    open spec fn raw_handle(&self) -> usize {
        *self
    }

    fn into_raw_js_value(self) -> (r: usize) {
        self
    }
}

/// What the layer gives for a property value `h` that the host found, where
/// `mid` is the host then: `undefined` is no value, any other value is built
/// as the variant `V`.
pub open spec fn found_then<V: JsValue>(mid: HostModel, h: usize, post: HostModel, r: JsResult<Option<V>>) -> bool {
    if !valid(mid, h) {
        &&& post == failed(mid, Status::InvalidArg)
        &&& error_after(r, post)
    } else if mid.heap[h as int] is Undefined {
        &&& post == mid
        &&& (r matches Ok(None))
    } else {
        &&& !(r matches Ok(None))
        &&& V::from_raw_spec(mid, h, post, match r {
            Ok(Some(x)) => Ok(x),
            Ok(None) => Err(JsError::TypeMismatch),
            Err(e) => Err(e),
        })
    }
}

/// What reading a property gives, from the host's lookup `(status, handle,
/// host after)`.
pub open spec fn property_then<V: JsValue>(found: (Status, usize, HostModel), post: HostModel, r: JsResult<Option<V>>) -> bool {
    if found.0 != Status::Success {
        &&& post == found.2
        &&& error_after(r, post)
    } else {
        found_then(found.2, found.1, post, r)
    }
}

/// What writing a property gives: the host's status decides.
pub open spec fn written_then(pre: HostModel, v: usize, key: Seq<u8>, value: usize, post: HostModel, r: JsResult<()>) -> bool {
    exists|s: Status| {
        &&& #[trigger] named_written(pre, v, key, value, post, s)
        &&& if s == Status::Success { r is Ok } else { error_after(r, post) }
    }
}

/// What asking for a property gives, from the host's answer.
pub open spec fn has_then(found: (Status, bool, HostModel), post: HostModel, r: JsResult<bool>) -> bool {
    &&& post == found.2
    &&& if found.0 == Status::Success { r == Ok::<bool, JsError>(found.1) } else { error_after(r, post) }
}

/// What a host query of a value's type gives: `pred` of the type, or the
/// failure on a handle that names nothing.
pub open spec fn queried(pre: HostModel, v: usize, pred: bool, post: HostModel, r: JsResult<bool>) -> bool {
    if valid(pre, v) {
        &&& post == pre
        &&& r == Ok::<bool, JsError>(pred)
    } else {
        &&& post == failed(pre, Status::InvalidArg)
        &&& error_after(r, post)
    }
}

/// A value variant: a handle whose type was checked, or coerced, when it
/// was built. Property access, type queries and coercions are defined here
/// for every variant.
pub trait JsValue: Sized {
    /// The handle this value refers to.
    spec fn handle(&self) -> usize;

    /// What `from_raw` does, from the host before, the raw handle, the host
    /// after and the result.
    spec fn from_raw_spec(pre: HostModel, value: usize, post: HostModel, r: JsResult<Self>) -> bool;

    /// The host value at `h` is of this variant.
    spec fn is_kind(m: HostModel, h: usize) -> bool;

    /// Building this variant refuses every value of another kind.
    spec fn is_strict() -> bool;

    /// A handle of this variant's kind comes back through `from_raw` as
    /// the same value, with nothing coerced and the host unchanged.
    proof fn lemma_round_trip(pre: HostModel, h: usize, post: HostModel, r: JsResult<Self>)
        requires
            Self::is_kind(pre, h),
            Self::from_raw_spec(pre, h, post, r),
        ensures
            post == pre,
            r matches Ok(x) && x.handle() == h,
    ;

    /// A strict variant built from a value of another kind fails with
    /// `TypeMismatch` and adds nothing to the host: it never coerces.
    proof fn lemma_never_coerced(pre: HostModel, h: usize, post: HostModel, r: JsResult<Self>)
        requires
            Self::is_strict(),
            valid(pre, h),
            !Self::is_kind(pre, h),
            Self::from_raw_spec(pre, h, post, r),
        ensures
            r matches Err(JsError::TypeMismatch),
            post.heap == pre.heap,
    ;

    fn as_raw(&self) -> (r: usize)
        ensures
            r == self.handle(),
    ;

    /// Builds this variant from a raw handle, checking its type against the
    /// host.
    fn from_raw(env: &mut Env, value: usize) -> (r: JsResult<Self>)
        ensures
            Self::from_raw_spec(old(env)@, value, final(env)@, r),
    ;

    fn is_undefined(&self, env: &mut Env) -> (r: JsResult<bool>)
        ensures
            queried(old(env)@, self.handle(), valid(old(env)@, self.handle())
                && old(env)@.heap[self.handle() as int] is Undefined, final(env)@, r),
    {
        env.is_type_of(self.as_raw(), ValueType::Undefined)
    }

    fn is_null(&self, env: &mut Env) -> (r: JsResult<bool>)
        ensures
            queried(old(env)@, self.handle(), valid(old(env)@, self.handle())
                && old(env)@.heap[self.handle() as int] is Null, final(env)@, r),
    {
        env.is_type_of(self.as_raw(), ValueType::Null)
    }

    fn is_null_or_undefined(&self, env: &mut Env) -> (r: JsResult<bool>)
        ensures
            queried(old(env)@, self.handle(), valid(old(env)@, self.handle())
                && (old(env)@.heap[self.handle() as int] is Null || old(env)@.heap[self.handle() as int] is Undefined),
                final(env)@, r),
    {
        let t = env.type_of(self.as_raw())?;
        Ok(t == ValueType::Null || t == ValueType::Undefined)
    }

    fn is_string(&self, env: &mut Env) -> (r: JsResult<bool>)
        ensures
            queried(old(env)@, self.handle(), valid(old(env)@, self.handle())
                && old(env)@.heap[self.handle() as int] is Str, final(env)@, r),
    {
        env.is_type_of(self.as_raw(), ValueType::String)
    }

    fn is_number(&self, env: &mut Env) -> (r: JsResult<bool>)
        ensures
            queried(old(env)@, self.handle(), valid(old(env)@, self.handle())
                && old(env)@.heap[self.handle() as int] is Number, final(env)@, r),
    {
        env.is_type_of(self.as_raw(), ValueType::Number)
    }

    /// Is the value an object? Functions are not.
    fn is_object(&self, env: &mut Env) -> (r: JsResult<bool>)
        ensures
            queried(old(env)@, self.handle(), valid(old(env)@, self.handle())
                && is_object_like(old(env)@.heap[self.handle() as int])
                && !(old(env)@.heap[self.handle() as int] is Function), final(env)@, r),
    {
        env.is_type_of(self.as_raw(), ValueType::Object)
    }

    fn is_array(&self, env: &mut Env) -> (r: JsResult<bool>)
        ensures
            queried(old(env)@, self.handle(), valid(old(env)@, self.handle())
                && old(env)@.heap[self.handle() as int] is Array, final(env)@, r),
    {
        let (st, b) = env.raw_is_array(self.as_raw());
        if st != Status::Success {
            return Err(JsError::from_env(env));
        }
        Ok(b)
    }

    fn is_buffer(&self, env: &mut Env) -> (r: JsResult<bool>)
        ensures
            queried(old(env)@, self.handle(), valid(old(env)@, self.handle())
                && old(env)@.heap[self.handle() as int] is Buffer, final(env)@, r),
    {
        let (st, b) = env.raw_is_buffer(self.as_raw());
        if st != Status::Success {
            return Err(JsError::from_env(env));
        }
        Ok(b)
    }

}

/// The named property, built as the variant `V`; `None` when it is
/// `undefined`.
pub fn get_named_property<T: JsValue, V: JsValue>(obj: &T, env: &mut Env, key: &str) -> (r: JsResult<Option<V>>)
    ensures
        property_then(named_read(old(env)@, obj.handle(), key.spec_bytes()), final(env)@, r),
{
    let (st, value) = env.raw_get_named_property(obj.as_raw(), key.as_bytes());
    if st != Status::Success {
        return Err(JsError::from_env(env));
    }
    read_found(env, value)
}

/// Does the value have the named property?
pub fn has_named_property<T: JsValue>(obj: &T, env: &mut Env, key: &str) -> (r: JsResult<bool>)
    ensures
        has_then(named_has(old(env)@, obj.handle(), key.spec_bytes()), final(env)@, r),
{
    let (st, b) = env.raw_has_named_property(obj.as_raw(), key.as_bytes());
    if st != Status::Success {
        return Err(JsError::from_env(env));
    }
    Ok(b)
}

/// Writes the named property.
pub fn set_named_property<T: JsValue, V: JsValue>(obj: &mut T, env: &mut Env, key: &str, value: &V) -> (r: JsResult<()>)
    ensures
        written_then(old(env)@, old(obj).handle(), key.spec_bytes(), value.handle(), final(env)@, r),
        *final(obj) == *old(obj),
{
    let st = env.raw_set_named_property(obj.as_raw(), key.as_bytes(), value.as_raw());
    if st != Status::Success {
        return Err(JsError::from_env(env));
    }
    Ok(())
}

/// The property under a key that is cast to a string first.
pub fn get_property<T: JsValue, K: CastToJs<JsString>, V: JsValue>(obj: &T, env: &mut Env, key: K) -> (r: JsResult<Option<V>>)
    ensures
        exists|mid: HostModel, k: JsResult<JsString>| {
            &&& #[trigger] key.cast_spec(old(env)@, mid, k)
            &&& match k {
                Ok(ks) => match key_text(mid, ks.handle()) {
                    Some(t) => property_then(named_read(mid, obj.handle(), t), final(env)@, r),
                    None => final(env)@ == failed(mid, key_failure(mid, ks.handle())) && error_after(r, final(env)@),
                },
                Err(e) => final(env)@ == mid && (r matches Err(x) && x == e),
            }
        },
{
    let k = key.cast(env);
    let ghost mid = env@;
    let ghost gk = k;
    let ks = match k {
        Ok(ks) => ks,
        Err(e) => {
            assert(key.cast_spec(old(env)@, mid, gk));
            return Err(e);
        },
    };
    assert(key.cast_spec(old(env)@, mid, gk));
    let (st, value) = env.raw_get_property(obj.as_raw(), ks.as_raw());
    if st != Status::Success {
        return Err(JsError::from_env(env));
    }
    read_found(env, value)
}

/// Does the value have a property under a key that is cast to a string
/// first?
pub fn has_property<T: JsValue, K: CastToJs<JsString>>(obj: &T, env: &mut Env, key: K) -> (r: JsResult<bool>)
    ensures
        exists|mid: HostModel, k: JsResult<JsString>| {
            &&& #[trigger] key.cast_spec(old(env)@, mid, k)
            &&& match k {
                Ok(ks) => match key_text(mid, ks.handle()) {
                    Some(t) => has_then(named_has(mid, obj.handle(), t), final(env)@, r),
                    None => final(env)@ == failed(mid, key_failure(mid, ks.handle())) && error_after(r, final(env)@),
                },
                Err(e) => final(env)@ == mid && (r matches Err(x) && x == e),
            }
        },
{
    let k = key.cast(env);
    let ghost mid = env@;
    let ghost gk = k;
    let ks = match k {
        Ok(ks) => ks,
        Err(e) => {
            assert(key.cast_spec(old(env)@, mid, gk));
            return Err(e);
        },
    };
    assert(key.cast_spec(old(env)@, mid, gk));
    let (st, b) = env.raw_has_property(obj.as_raw(), ks.as_raw());
    if st != Status::Success {
        return Err(JsError::from_env(env));
    }
    Ok(b)
}

/// Writes the property under a key that is cast to a string first.
pub fn set_property<T: JsValue, K: CastToJs<JsString>, V: JsValue>(obj: &mut T, env: &mut Env, key: K, value: &V) -> (r: JsResult<()>)
    ensures
        *final(obj) == *old(obj),
        exists|mid: HostModel, k: JsResult<JsString>| {
            &&& #[trigger] key.cast_spec(old(env)@, mid, k)
            &&& match k {
                Ok(ks) => match key_text(mid, ks.handle()) {
                    Some(t) => written_then(mid, old(obj).handle(), t, value.handle(), final(env)@, r),
                    None => final(env)@ == failed(mid, key_failure(mid, ks.handle())) && error_after(r, final(env)@),
                },
                Err(e) => final(env)@ == mid && (r matches Err(x) && x == e),
            }
        },
{
    let k = key.cast(env);
    let ghost mid = env@;
    let ghost gk = k;
    let ks = match k {
        Ok(ks) => ks,
        Err(e) => {
            assert(key.cast_spec(old(env)@, mid, gk));
            return Err(e);
        },
    };
    assert(key.cast_spec(old(env)@, mid, gk));
    let st = env.raw_set_property(obj.as_raw(), ks.as_raw(), value.as_raw());
    if st != Status::Success {
        return Err(JsError::from_env(env));
    }
    Ok(())
}

/// The host's text for a value.
pub fn to_string<T: JsValue>(value: T, env: &mut Env) -> (r: JsResult<JsString>)
    ensures
        string_coerced(old(env)@, value.handle(), final(env)@, r),
{
    JsString::coerce_from(env, value.as_raw())
}

/// The host's object for a value.
pub fn to_object<T: JsValue>(value: T, env: &mut Env) -> (r: JsResult<JsObject>)
    ensures
        object_coerced(old(env)@, value.handle(), final(env)@, r),
{
    JsObject::coerce_from(env, value.as_raw())
}

/// The host's boolean for a value.
pub fn to_bool<T: JsValue>(value: T, env: &mut Env) -> (r: JsResult<JsBool>)
    ensures
        bool_coerced(old(env)@, value.handle(), final(env)@, r),
{
    JsBool::coerce_from(env, value.as_raw())
}

/// The host's number for a value.
pub fn to_number<T: JsValue>(value: T, env: &mut Env) -> (r: JsResult<JsNumber>)
    ensures
        number_coerced(old(env)@, value.handle(), final(env)@, r),
{
    JsNumber::coerce_from(env, value.as_raw())
}

/// Finishes a property read: `undefined` is no value, any other value is
/// built as the variant `V`.
fn read_found<V: JsValue>(env: &mut Env, value: usize) -> (r: JsResult<Option<V>>)
    ensures
        found_then(old(env)@, value, final(env)@, r),
{
    if env.is_type_of(value, ValueType::Undefined)? {
        return Ok(None);
    }
    match V::from_raw(env, value) {
        Ok(v) => Ok(Some(v)),
        Err(e) => Err(e),
    }
}

/// Reads a native value out of a value variant.
pub trait CastToRust<T>: JsValue {
    /// What `cast` does, from the host before and after and the result.
    spec fn cast_spec(&self, pre: HostModel, post: HostModel, r: JsResult<T>) -> bool;

    fn cast(&self, env: &mut Env) -> (r: JsResult<T>)
        ensures
            self.cast_spec(old(env)@, final(env)@, r),
    ;
}

/// Builds a value variant from a native value.
pub trait CastToJs<T: JsValue>: Sized {
    /// What `cast` does, from the host before and after and the result.
    spec fn cast_spec(&self, pre: HostModel, post: HostModel, r: JsResult<T>) -> bool;

    fn cast(&self, env: &mut Env) -> (r: JsResult<T>)
        ensures
            self.cast_spec(old(env)@, final(env)@, r),
    ;
}

/// A handle of any type, taken as it is.
pub struct JsValueRaw {
    value: usize,
}

impl JsValue for JsValueRaw {
    closed spec fn handle(&self) -> usize {
        self.value
    }

    open spec fn from_raw_spec(pre: HostModel, value: usize, post: HostModel, r: JsResult<Self>) -> bool {
        &&& post == pre
        &&& (r matches Ok(x) && x.handle() == value)
    }

    open spec fn is_kind(m: HostModel, h: usize) -> bool {
        true
    }

    open spec fn is_strict() -> bool {
        false
    }

    proof fn lemma_round_trip(pre: HostModel, h: usize, post: HostModel, r: JsResult<Self>) {
    }

    proof fn lemma_never_coerced(pre: HostModel, h: usize, post: HostModel, r: JsResult<Self>) {
    }

    fn as_raw(&self) -> (r: usize) {
        self.value
    }

    fn from_raw(env: &mut Env, value: usize) -> (r: JsResult<Self>) {
        Ok(JsValueRaw { value })
    }
}

impl IntoRawJsValue for JsValueRaw {
    open spec fn raw_handle(&self) -> usize {
        self.handle()
    }

    fn into_raw_js_value(self) -> (r: usize) {
        self.value
    }
}

impl JsValueRaw {
    pub(crate) fn from_raw_unchecked(value: usize) -> (r: JsValueRaw)
        ensures
            r.handle() == value,
    {
        JsValueRaw { value }
    }

    /// Builds the variant `T` from this handle.
    pub fn cast<T: JsValue>(self, env: &mut Env) -> (r: JsResult<T>)
        ensures
            T::from_raw_spec(old(env)@, self.handle(), final(env)@, r),
    {
        T::from_raw(env, self.value)
    }
}

} // verus!
