//! Arrays.
use vstd::prelude::*;
use crate::env::{Env, HostModel, HostValue, element_put, element_read, elem_lookup, failed, is_object_like, valid, with_value};
use crate::error::{JsError, error_after};
use crate::sys::Status;
use crate::types::{JsBool, JsNumber, JsObject, JsString};
use crate::types::string::text_read;
use crate::value::{CastToRust, IntoRawJsValue, JsValue, JsValueRaw, strict_built};
use crate::JsResult;

verus! {

/// An array. Built only from a value that the host reports as an array.
pub struct JsArray {
    value: usize,
}

/// What reading the element at `index` of `v` as the variant `T` does.
/// Indices beyond 32 bits are refused.
pub open spec fn element_then<T: JsValue>(pre: HostModel, v: usize, index: usize, post: HostModel, r: JsResult<T>) -> bool {
    if index > u32::MAX {
        &&& post == failed(pre, Status::InvalidArg)
        &&& error_after(r, post)
    } else {
        let (st, h, mid) = element_read(pre, v, index as u32);
        if st != Status::Success {
            &&& post == mid
            &&& error_after(r, post)
        } else {
            T::from_raw_spec(mid, h, post, r)
        }
    }
}

/// What a write or deletion of an element does, as the host reports it.
pub open spec fn element_written(pre: HostModel, v: usize, index: usize, value: Option<usize>, post: HostModel, r: JsResult<()>) -> bool {
    if index >= u32::MAX || !valid(pre, v) || pre.pending is Some || !is_object_like(pre.heap[v as int])
        || (value matches Some(x) && !valid(pre, x)) {
        &&& post == failed(pre,
            if index < u32::MAX && valid(pre, v) && pre.pending is Some { Status::PendingException }
            else if index < u32::MAX && valid(pre, v) && !is_object_like(pre.heap[v as int]) { Status::ObjectExpected }
            else { Status::InvalidArg })
        &&& error_after(r, post)
    } else {
        &&& post == element_put(pre, v, index as u32, value)
        &&& r is Ok
    }
}

/// The host after the first `n` of `values` were written as elements
/// `0..n` of array `a`.
pub open spec fn filled(m: HostModel, a: usize, values: Seq<usize>, n: nat) -> HostModel
    decreases n,
{
    if n == 0 {
        m
    } else {
        element_put(filled(m, a, values, (n - 1) as nat), a, (n - 1) as u32, Some(values[n - 1]))
    }
}

/// Filling stopped at value `i`: the earlier values were written, and the
/// host refused value `i`, for a pending exception (only ever at the first
/// value) or for a handle that names nothing.
pub open spec fn fill_failed(start: HostModel, a: usize, values: Seq<usize>, i: nat, post: HostModel, r: JsResult<JsArray>) -> bool {
    &&& i < values.len()
    &&& forall|j: int| 0 <= j < i ==> valid(start, #[trigger] values[j])
    &&& start.pending is Some ==> i == 0
    &&& start.pending is None ==> !valid(start, values[i as int])
    &&& post == failed(filled(start, a, values, i),
        if start.pending is Some { Status::PendingException } else { Status::InvalidArg })
    &&& error_after(r, post)
}

/// Every handle names a value on the host.
pub open spec fn all_valid(m: HostModel, values: Seq<usize>) -> bool {
    forall|i: int| 0 <= i < values.len() ==> valid(m, #[trigger] values[i])
}

proof fn lemma_filled_keeps(m: HostModel, a: usize, values: Seq<usize>, n: nat)
    requires
        valid(m, a),
        m.heap[a as int] is Array,
        n <= values.len(),
    ensures
        filled(m, a, values, n).heap.len() == m.heap.len(),
        filled(m, a, values, n).pending == m.pending,
        filled(m, a, values, n).heap[a as int] is Array,
    decreases n,
{
    if n > 0 {
        lemma_filled_keeps(m, a, values, (n - 1) as nat);
    }
}

impl JsValue for JsArray {
    closed spec fn handle(&self) -> usize {
        self.value
    }

    open spec fn from_raw_spec(pre: HostModel, value: usize, post: HostModel, r: JsResult<Self>) -> bool {
        strict_built(pre, value, post, match r { Ok(x) => Ok(x.handle()), Err(e) => Err(e) },
            valid(pre, value) && pre.heap[value as int] is Array)
    }

    open spec fn is_kind(m: HostModel, h: usize) -> bool {
        valid(m, h) && m.heap[h as int] is Array
    }

    open spec fn is_strict() -> bool {
        true
    }

    proof fn lemma_round_trip(pre: HostModel, h: usize, post: HostModel, r: JsResult<Self>) {
    }

    proof fn lemma_never_coerced(pre: HostModel, h: usize, post: HostModel, r: JsResult<Self>) {
    }

    fn as_raw(&self) -> (r: usize) {
        self.value
    }

    fn from_raw(env: &mut Env, value: usize) -> (r: JsResult<Self>) {
        let (st, is_array) = env.raw_is_array(value);
        if st != Status::Success {
            return Err(JsError::from_env(env));
        }
        if !is_array {
            return Err(JsError::TypeMismatch);
        }
        Ok(JsArray { value })
    }
}

impl IntoRawJsValue for JsArray {
    open spec fn raw_handle(&self) -> usize {
        self.handle()
    }

    fn into_raw_js_value(self) -> (r: usize) {
        self.value
    }
}

impl JsArray {
    /// A new empty array.
    pub fn new(env: &mut Env) -> (r: JsResult<Self>)
        ensures
            final(env)@ == with_value(old(env)@, HostValue::Array(0)),
            r matches Ok(x) && x.handle() == old(env)@.heap.len(),
    {
        let (_, value) = env.raw_create_array_with_length(0);
        Ok(JsArray { value })
    }

    /// A new array of the given length. Lengths beyond 32 bits are refused.
    pub fn new_with_len(env: &mut Env, len: usize) -> (r: JsResult<Self>)
        ensures
            len <= u32::MAX ==> final(env)@ == with_value(old(env)@, HostValue::Array(len as u32))
                && (r matches Ok(x) && x.handle() == old(env)@.heap.len()),
            len > u32::MAX ==> final(env)@ == failed(old(env)@, Status::InvalidArg) && error_after(r, final(env)@),
    {
        if len > u32::MAX as usize {
            env.raw_record_invalid_arg();
            return Err(JsError::from_env(env));
        }
        let (_, value) = env.raw_create_array_with_length(len as u32);
        Ok(JsArray { value })
    }

    /// A new array holding the values in order. At most `u32::MAX - 1`
    /// values fit.
    pub fn from_raw_values(env: &mut Env, values: &[usize]) -> (r: JsResult<Self>)
        ensures
            values@.len() >= u32::MAX ==> final(env)@ == failed(old(env)@, Status::InvalidArg)
                && error_after(r, final(env)@),
            values@.len() < u32::MAX ==> ((r is Ok) <==> (values@.len() == 0 || (old(env)@.pending is None
                && all_valid(with_value(old(env)@, HostValue::Array(values@.len() as u32)), values@)))),
            values@.len() < u32::MAX && (r is Ok) ==> (r matches Ok(x) && x.handle() == old(env)@.heap.len()
                && final(env)@ == filled(with_value(old(env)@, HostValue::Array(values@.len() as u32)),
                    old(env)@.heap.len() as usize, values@, values@.len())),
            values@.len() < u32::MAX && (r is Err) ==> exists|i: nat| #[trigger] fill_failed(
                with_value(old(env)@, HostValue::Array(values@.len() as u32)),
                old(env)@.heap.len() as usize, values@, i, final(env)@, r),
    {
        if values.len() >= u32::MAX as usize {
            env.raw_record_invalid_arg();
            return Err(JsError::from_env(env));
        }
        let (_, value) = env.raw_create_array_with_length(values.len() as u32);
        let ghost start = env@;
        let mut i: usize = 0;
        while i < values.len()
            invariant
                i <= values@.len() < u32::MAX,
                value == old(env)@.heap.len(),
                start == with_value(old(env)@, HostValue::Array(values@.len() as u32)),
                env@ == filled(start, value, values@, i as nat),
                i > 0 ==> start.pending is None,
                forall|j: int| 0 <= j < i ==> valid(start, #[trigger] values@[j]),
            decreases values@.len() - i,
        {
            proof {
                lemma_filled_keeps(start, value, values@, i as nat);
            }
            let st = env.raw_put_element(value, i as u32, Some(values[i]));
            if st != Status::Success {
                let r = Err(JsError::from_env(env));
                assert(fill_failed(start, value, values@, i as nat, env@, r));
                return r;
            }
            i = i + 1;
        }
        proof {
            if values@.len() > 0 {
                assert(all_valid(start, values@));
            }
        }
        Ok(JsArray { value })
    }

    /// The length of the array.
    pub fn len(&self, env: &mut Env) -> (r: JsResult<usize>)
        ensures
            valid(old(env)@, self.handle()) && old(env)@.heap[self.handle() as int] is Array ==> final(env)@ == old(env)@
                && r == Ok::<usize, JsError>(match old(env)@.heap[self.handle() as int] { HostValue::Array(n) => n as usize, _ => 0 }),
            !(valid(old(env)@, self.handle()) && old(env)@.heap[self.handle() as int] is Array) ==> error_after(r, final(env)@)
                && final(env)@ == failed(old(env)@, if valid(old(env)@, self.handle()) { Status::ArrayExpected } else { Status::InvalidArg }),
    {
        let (st, n) = env.raw_get_array_length(self.value);
        if st != Status::Success {
            return Err(JsError::from_env(env));
        }
        Ok(n as usize)
    }

    /// The element at `index`, built as the variant `T`; a missing element
    /// is `undefined`.
    pub fn get<T: JsValue>(&self, env: &mut Env, index: usize) -> (r: JsResult<T>)
        ensures
            element_then(old(env)@, self.handle(), index, final(env)@, r),
    {
        if index > u32::MAX as usize {
            env.raw_record_invalid_arg();
            return Err(JsError::from_env(env));
        }
        let (st, value) = env.raw_get_element(self.value, index as u32);
        if st != Status::Success {
            return Err(JsError::from_env(env));
        }
        T::from_raw(env, value)
    }

    /// The element at `index`, as it is.
    pub fn get_raw(&self, env: &mut Env, index: usize) -> (r: JsResult<JsValueRaw>)
        ensures
            element_then(old(env)@, self.handle(), index, final(env)@, r),
    {
        self.get::<JsValueRaw>(env, index)
    }

    /// The element at `index`, read as a string.
    pub fn get_str(&self, env: &mut Env, index: usize) -> (r: JsResult<String>)
        ensures
            exists|mid: HostModel, e: JsResult<JsString>| {
                let post = final(env)@;
                &&& #[trigger] element_then(old(env)@, self.handle(), index, mid, e)
                &&& match e {
                    Ok(x) => text_read(mid, x.handle(), post, r),
                    Err(err) => post == mid && r == Err::<String, JsError>(err),
                }
            },
    {
        let e = self.get::<JsString>(env, index);
        let ghost mid = env@;
        let ghost ge = e;
        match e {
            Ok(x) => {
                let r = x.cast(env);
                assert(match ge {
                    Ok(x) => { let post = env@; text_read(mid, x.handle(), post, r) },
                    Err(err) => false,
                });
                r
            },
            Err(err) => Err(err),
        }
    }

    /// The element at `index`, read as a number, wrapped to 32 bits.
    pub fn get_i32(&self, env: &mut Env, index: usize) -> (r: JsResult<i32>)
        ensures
            exists|mid: HostModel, e: JsResult<JsNumber>| {
                let post = final(env)@;
                &&& #[trigger] element_then(old(env)@, self.handle(), index, mid, e)
                &&& match e {
                    Ok(x) => <JsNumber as CastToRust<i32>>::cast_spec(&x, mid, post, r),
                    Err(err) => post == mid && r == Err::<i32, JsError>(err),
                }
            },
    {
        let e = self.get::<JsNumber>(env, index);
        let ghost mid = env@;
        let ghost ge = e;
        match e {
            Ok(x) => {
                let r = x.cast(env);
                assert(match ge {
                    Ok(x) => { let post = env@; <JsNumber as CastToRust<i32>>::cast_spec(&x, mid, post, r) },
                    Err(err) => false,
                });
                r
            },
            Err(err) => Err(err),
        }
    }

    /// The element at `index`, read as a number.
    pub fn get_i64(&self, env: &mut Env, index: usize) -> (r: JsResult<i64>)
        ensures
            exists|mid: HostModel, e: JsResult<JsNumber>| {
                let post = final(env)@;
                &&& #[trigger] element_then(old(env)@, self.handle(), index, mid, e)
                &&& match e {
                    Ok(x) => <JsNumber as CastToRust<i64>>::cast_spec(&x, mid, post, r),
                    Err(err) => post == mid && r == Err::<i64, JsError>(err),
                }
            },
    {
        let e = self.get::<JsNumber>(env, index);
        let ghost mid = env@;
        let ghost ge = e;
        match e {
            Ok(x) => {
                let r = x.cast(env);
                assert(match ge {
                    Ok(x) => { let post = env@; <JsNumber as CastToRust<i64>>::cast_spec(&x, mid, post, r) },
                    Err(err) => false,
                });
                r
            },
            Err(err) => Err(err),
        }
    }

    /// The element at `index`, read as a boolean.
    pub fn get_bool(&self, env: &mut Env, index: usize) -> (r: JsResult<bool>)
        ensures
            exists|mid: HostModel, e: JsResult<JsBool>| {
                let post = final(env)@;
                &&& #[trigger] element_then(old(env)@, self.handle(), index, mid, e)
                &&& match e {
                    Ok(x) => <JsBool as CastToRust<bool>>::cast_spec(&x, mid, post, r),
                    Err(err) => post == mid && r == Err::<bool, JsError>(err),
                }
            },
    {
        let e = self.get::<JsBool>(env, index);
        let ghost mid = env@;
        let ghost ge = e;
        match e {
            Ok(x) => {
                let r = x.cast(env);
                assert(match ge {
                    Ok(x) => { let post = env@; <JsBool as CastToRust<bool>>::cast_spec(&x, mid, post, r) },
                    Err(err) => false,
                });
                r
            },
            Err(err) => Err(err),
        }
    }

    /// The element at `index`, as an object.
    pub fn get_obj(&self, env: &mut Env, index: usize) -> (r: JsResult<JsObject>)
        ensures
            element_then(old(env)@, self.handle(), index, final(env)@, r),
    {
        self.get(env, index)
    }

    /// Writes the element at `index`.
    pub fn set<T: JsValue>(&mut self, env: &mut Env, index: usize, value: T) -> (r: JsResult<()>)
        ensures
            element_written(old(env)@, old(self).handle(), index, Some(value.handle()), final(env)@, r),
            *final(self) == *old(self),
    {
        if index >= u32::MAX as usize {
            env.raw_record_invalid_arg();
            return Err(JsError::from_env(env));
        }
        let st = env.raw_put_element(self.value, index as u32, Some(value.as_raw()));
        if st != Status::Success {
            return Err(JsError::from_env(env));
        }
        Ok(())
    }

    /// Does the array have an element at `index`?
    pub fn has(&self, env: &mut Env, index: usize) -> (r: JsResult<bool>)
        ensures
            index > u32::MAX ==> final(env)@ == failed(old(env)@, Status::InvalidArg) && error_after(r, final(env)@),
            index <= u32::MAX ==> {
                let (st, _, mid) = element_read(old(env)@, self.handle(), index as u32);
                if st != Status::Success {
                    final(env)@ == mid && error_after(r, final(env)@)
                } else {
                    final(env)@ == old(env)@
                        && r == Ok::<bool, JsError>(elem_lookup(old(env)@.elems, self.handle(), index as u32) is Some)
                }
            },
    {
        if index > u32::MAX as usize {
            env.raw_record_invalid_arg();
            return Err(JsError::from_env(env));
        }
        let (st, b) = env.raw_has_element(self.value, index as u32);
        if st != Status::Success {
            return Err(JsError::from_env(env));
        }
        Ok(b)
    }

    /// Deletes the element at `index`.
    pub fn delete(&mut self, env: &mut Env, index: usize) -> (r: JsResult<bool>)
        ensures
            element_written(old(env)@, old(self).handle(), index, None, final(env)@,
                match r { Ok(_) => Ok(()), Err(e) => Err(e) }),
            *final(self) == *old(self),
            r is Ok ==> r == Ok::<bool, JsError>(true),
    {
        if index >= u32::MAX as usize {
            env.raw_record_invalid_arg();
            return Err(JsError::from_env(env));
        }
        let st = env.raw_put_element(self.value, index as u32, None);
        if st != Status::Success {
            return Err(JsError::from_env(env));
        }
        Ok(true)
    }
}

} // verus!
