//! Native payloads attached to host objects.
use vstd::prelude::*;
use core::marker::PhantomData;
use crate::env::{Attachment, Env, HostModel, Link, attachment_of, failed, is_object_like, valid};
use crate::error::{JsError, error_after};
use crate::finalize::{DropFinalizer, JsFinalize};
use crate::sys::{Status, ValueType};
use crate::types::JsObject;
use crate::value::{IntoRawJsValue, JsValue};
use crate::JsResult;

verus! {

/// The native payloads of one type. Each attachment records the registry's
/// tag and a slot; a payload is only ever read back through the registry
/// whose tag it carries, so it is never taken for a payload of another type.
/// Tags are unique within the host that issued them, so a registry is used
/// with that host only.
pub struct WrapRegistry<T> {
    tag: u64,
    payloads: Vec<Option<T>>,
}

/// The payload that an attachment names in a registry, if it names one.
pub open spec fn payload_for<T>(tag: u64, payloads: Seq<Option<T>>, link: Link) -> Option<T> {
    if link.tag == tag && link.slot < payloads.len() {
        payloads[link.slot as int]
    } else {
        None
    }
}

/// What looking up the payload of object `o` does: the host reports the
/// attachment, and the registry gives the payload it names.
pub open spec fn unwrapped<T>(pre: HostModel, o: usize, tag: u64, payloads: Seq<Option<T>>, post: HostModel, r: JsResult<T>) -> bool {
    if !valid(pre, o) {
        &&& post == failed(pre, Status::InvalidArg)
        &&& error_after(r, post)
    } else if !is_object_like(pre.heap[o as int]) {
        &&& post == failed(pre, Status::ObjectExpected)
        &&& error_after(r, post)
    } else {
        match attachment_of(pre.attachments, o) {
            None => {
                &&& post == failed(pre, Status::InvalidArg)
                &&& error_after(r, post)
            },
            Some(link) => {
                &&& post == pre
                &&& match payload_for(tag, payloads, link) {
                    Some(x) => r == Ok::<T, JsError>(x),
                    None => r matches Err(JsError::TypeMismatch),
                }
            },
        }
    }
}

/// What attaching a payload to object `o` does on the host.
pub open spec fn attached(pre: HostModel, o: usize, link: Link, post: HostModel, r: JsResult<()>) -> bool {
    if !valid(pre, o) || pre.pending is Some || !is_object_like(pre.heap[o as int]) || attachment_of(pre.attachments, o) is Some {
        &&& post == failed(pre,
            if !valid(pre, o) { Status::InvalidArg }
            else if pre.pending is Some { Status::PendingException }
            else if !is_object_like(pre.heap[o as int]) { Status::ObjectExpected }
            else { Status::InvalidArg })
        &&& error_after(r, post)
    } else {
        &&& post == (HostModel { attachments: pre.attachments.push(crate::env::Attachment { object: o, link: Some(link) }), ..pre })
        &&& r is Ok
    }
}

impl<T> WrapRegistry<T> {
    pub closed spec fn tag(&self) -> u64 {
        self.tag
    }

    /// The payloads by slot; `None` once reclaimed.
    pub closed spec fn payloads(&self) -> Seq<Option<T>> {
        self.payloads@
    }

    /// An empty registry with a tag of its own.
    pub fn new(env: &mut Env) -> (r: JsResult<Self>)
        ensures
            old(env)@.next_tag < u64::MAX ==> (r matches Ok(reg) && reg.tag() == old(env)@.next_tag
                && reg.payloads().len() == 0)
                && final(env)@ == (HostModel { next_tag: (old(env)@.next_tag + 1) as u64, ..old(env)@ }),
            old(env)@.next_tag == u64::MAX ==> final(env)@ == failed(old(env)@, Status::GenericFailure)
                && error_after(r, final(env)@),
    {
        let (st, tag) = env.raw_new_tag();
        if st != Status::Success {
            return Err(JsError::from_env(env));
        }
        Ok(WrapRegistry { tag, payloads: Vec::new() })
    }

    /// Host side: the host reclaims `object`. Its payload is detached from
    /// the object, then finalized and dropped; a reclaimed payload is never
    /// handed out again.
    pub fn reclaim(&mut self, env: &mut Env, object: usize) -> (r: JsResult<()>)
        ensures
            final(self).tag() == old(self).tag(),
            !valid(old(env)@, object) ==> final(env)@ == failed(old(env)@, Status::InvalidArg)
                && error_after(r, final(env)@) && final(self).payloads() == old(self).payloads(),
            valid(old(env)@, object) && !is_object_like(old(env)@.heap[object as int])
                ==> final(env)@ == failed(old(env)@, Status::ObjectExpected)
                && error_after(r, final(env)@) && final(self).payloads() == old(self).payloads(),
            valid(old(env)@, object) && is_object_like(old(env)@.heap[object as int])
                ==> match attachment_of(old(env)@.attachments, object) {
                None => final(env)@ == failed(old(env)@, Status::InvalidArg)
                    && error_after(r, final(env)@) && final(self).payloads() == old(self).payloads(),
                Some(link) => {
                    &&& r is Ok
                    &&& final(env)@ == (HostModel {
                        attachments: old(env)@.attachments.push(Attachment { object, link: None }),
                        ..old(env)@
                    })
                    &&& final(self).payloads() == (if link.tag == old(self).tag() && link.slot < old(self).payloads().len() {
                        old(self).payloads().update(link.slot as int, None)
                    } else {
                        old(self).payloads()
                    })
                },
            },
    {
        let (st, link) = env.raw_remove_wrap(object);
        if st != Status::Success {
            return Err(JsError::from_env(env));
        }
        if link.tag == self.tag && link.slot < self.payloads.len() {
            let mut taken: Option<T> = None;
            self.payloads.set_and_swap(link.slot, &mut taken);
            if let Some(mut data) = taken {
                DropFinalizer::<T>::finalize(env, &mut data);
            }
        }
        Ok(())
    }

    /// The payload at a slot, to change in place.
    fn payload_mut(&mut self, slot: usize) -> (r: &mut T)
        requires
            slot < old(self).payloads@.len(),
            old(self).payloads@[slot as int] is Some,
        ensures
            Some(*r) == old(self).payloads@[slot as int],
            final(self).payloads@ == old(self).payloads@.update(slot as int, Some(*final(r))),
            final(self).tag == old(self).tag,
    {
        match &mut self.payloads[slot] {
            Some(x) => x,
            None => vstd::pervasive::unreached(),
        }
    }
}

/// An object that carries a native payload of type `T`.
pub struct JsWrap<T> {
    object: JsObject,
    _m: PhantomData<T>,
}

/// What building a wrap of `h` through a registry with `tag` and
/// `payloads` does; `r` is the result with the wrap replaced by its handle.
/// Strict: only an object whose payload this registry holds is accepted;
/// any other value gives `TypeMismatch` and is never coerced.
pub open spec fn wrap_built<T>(pre: HostModel, h: usize, tag: u64, payloads: Seq<Option<T>>, post: HostModel, r: JsResult<usize>) -> bool {
    if !valid(pre, h) {
        &&& post == failed(pre, Status::InvalidArg)
        &&& error_after(r, post)
    } else if !is_object_like(pre.heap[h as int]) {
        &&& post == pre
        &&& r matches Err(JsError::TypeMismatch)
    } else {
        match attachment_of(pre.attachments, h) {
            None => {
                &&& post == failed(pre, Status::InvalidArg)
                &&& r matches Err(JsError::TypeMismatch)
            },
            Some(link) => {
                &&& post == pre
                &&& if payload_for(tag, payloads, link) is Some {
                    r == Ok::<usize, JsError>(h)
                } else {
                    r matches Err(JsError::TypeMismatch)
                }
            },
        }
    }
}

/// The handle names an object that carries a payload of the registry.
pub open spec fn wraps_payload_of<T>(m: HostModel, h: usize, tag: u64, payloads: Seq<Option<T>>) -> bool {
    &&& valid(m, h)
    &&& is_object_like(m.heap[h as int])
    &&& attachment_of(m.attachments, h) matches Some(link) && payload_for(tag, payloads, link) is Some
}

/// An object that carries a payload of the registry comes back through
/// `JsWrap::from_raw` as the same handle, with the host unchanged.
pub proof fn lemma_wrap_round_trip<T>(pre: HostModel, h: usize, tag: u64, payloads: Seq<Option<T>>, post: HostModel, r: JsResult<usize>)
    requires
        wraps_payload_of(pre, h, tag, payloads),
        wrap_built(pre, h, tag, payloads, post, r),
    ensures
        post.heap == pre.heap,
        post == pre,
        r == Ok::<usize, JsError>(h),
{
}

/// Any other value fails with `TypeMismatch` and adds nothing to the host,
/// including an object whose payload another registry attached.
pub proof fn lemma_wrap_never_coerced<T>(pre: HostModel, h: usize, tag: u64, payloads: Seq<Option<T>>, post: HostModel, r: JsResult<usize>)
    requires
        valid(pre, h),
        !wraps_payload_of(pre, h, tag, payloads),
        wrap_built(pre, h, tag, payloads, post, r),
    ensures
        r matches Err(JsError::TypeMismatch),
        post.heap == pre.heap,
{
}

impl<T> IntoRawJsValue for JsWrap<T> {
    open spec fn raw_handle(&self) -> usize {
        self.handle()
    }

    fn into_raw_js_value(self) -> (r: usize) {
        self.object.as_raw()
    }
}

impl<T> JsWrap<T> {
    /// The handle of the object.
    pub closed spec fn handle(&self) -> usize {
        self.object.handle()
    }

    pub fn as_raw(&self) -> (r: usize)
        ensures
            r == self.handle(),
    {
        self.object.as_raw()
    }

    /// Builds a wrap of `value` for the registry of `T`: the value must be
    /// an object whose payload this registry holds.
    pub fn from_raw(env: &mut Env, value: usize, registry: &WrapRegistry<T>) -> (r: JsResult<Self>)
        ensures
            wrap_built(old(env)@, value, registry.tag(), registry.payloads(), final(env)@,
                match r { Ok(w) => Ok(w.handle()), Err(e) => Err(e) }),
    {
        let (st, t) = env.raw_typeof(value);
        if st != Status::Success {
            return Err(JsError::from_env(env));
        }
        if t != ValueType::Object && t != ValueType::Function {
            return Err(JsError::TypeMismatch);
        }
        let (st, link) = env.raw_unwrap(value);
        if st != Status::Success {
            return Err(JsError::TypeMismatch);
        }
        if link.tag != registry.tag || link.slot >= registry.payloads.len() {
            return Err(JsError::TypeMismatch);
        }
        if registry.payloads[link.slot].is_none() {
            return Err(JsError::TypeMismatch);
        }
        Ok(JsWrap { object: JsObject::from_raw_unchecked(value), _m: PhantomData })
    }

    /// The object that carries the payload.
    pub closed spec fn object(&self) -> JsObject {
        self.object
    }

    /// Attaches `data` to the object; the registry keeps it until the host
    /// reclaims the object.
    pub fn wrap(env: &mut Env, object: &mut JsObject, data: T, registry: &mut WrapRegistry<T>) -> (r: JsResult<()>)
        ensures
            *final(object) == *old(object),
            final(registry).tag() == old(registry).tag(),
            attached(old(env)@, old(object).handle(),
                Link { tag: old(registry).tag(), slot: old(registry).payloads().len() as usize }, final(env)@, r),
            r is Ok ==> final(registry).payloads() == old(registry).payloads().push(Some(data)),
            r is Err ==> final(registry).payloads() == old(registry).payloads(),
    {
        let link = Link { tag: registry.tag, slot: registry.payloads.len() };
        let st = env.raw_wrap(object.as_raw(), link);
        if st != Status::Success {
            return Err(JsError::from_env(env));
        }
        registry.payloads.push(Some(data));
        Ok(())
    }

    /// Attaches `data` to the object and keeps the object as a wrap.
    pub fn new(env: &mut Env, object: JsObject, data: T, registry: &mut WrapRegistry<T>) -> (r: JsResult<Self>)
        ensures
            final(registry).tag() == old(registry).tag(),
            attached(old(env)@, object.handle(),
                Link { tag: old(registry).tag(), slot: old(registry).payloads().len() as usize }, final(env)@,
                match r { Ok(_) => Ok(()), Err(e) => Err(e) }),
            r matches Ok(w) ==> w.handle() == object.handle()
                && final(registry).payloads() == old(registry).payloads().push(Some(data)),
            r is Err ==> final(registry).payloads() == old(registry).payloads(),
    {
        let mut object = object;
        Self::wrap(env, &mut object, data, registry)?;
        Ok(JsWrap { object, _m: PhantomData })
    }

    /// The payload of an object, read through the registry of its type.
    /// An object whose payload belongs to another registry gives
    /// `TypeMismatch`.
    pub fn make_ref<'o>(env: &mut Env, object: &JsObject, registry: &'o WrapRegistry<T>) -> (r: JsResult<&'o T>)
        ensures
            unwrapped(old(env)@, object.handle(), registry.tag(), registry.payloads(), final(env)@,
                match r { Ok(x) => Ok(*x), Err(e) => Err(e) }),
    {
        let (st, link) = env.raw_unwrap(object.as_raw());
        if st != Status::Success {
            return Err(JsError::from_env(env));
        }
        if link.tag != registry.tag || link.slot >= registry.payloads.len() {
            return Err(JsError::TypeMismatch);
        }
        match &registry.payloads[link.slot] {
            Some(x) => Ok(x),
            None => Err(JsError::TypeMismatch),
        }
    }

    pub fn as_ref<'o>(&self, env: &mut Env, registry: &'o WrapRegistry<T>) -> (r: JsResult<&'o T>)
        ensures
            unwrapped(old(env)@, self.handle(), registry.tag(), registry.payloads(), final(env)@,
                match r { Ok(x) => Ok(*x), Err(e) => Err(e) }),
    {
        Self::make_ref(env, &self.object, registry)
    }

    /// The payload of an object, to change in place; checked as `make_ref`.
    pub fn make_mut<'o>(env: &mut Env, object: &mut JsObject, registry: &'o mut WrapRegistry<T>) -> (r: JsResult<&'o mut T>)
        ensures
            *final(object) == *old(object),
            final(registry).tag() == old(registry).tag(),
            unwrapped(old(env)@, old(object).handle(), old(registry).tag(), old(registry).payloads(), final(env)@,
                match r { Ok(x) => Ok(*x), Err(e) => Err(e) }),
            r is Err ==> final(registry).payloads() == old(registry).payloads(),
            r matches Ok(x) ==> attachment_of(old(env)@.attachments, old(object).handle()) matches Some(link)
                && final(registry).payloads() == old(registry).payloads().update(link.slot as int, Some(*final(x))),
    {
        let (st, link) = env.raw_unwrap(object.as_raw());
        if st != Status::Success {
            return Err(JsError::from_env(env));
        }
        if link.tag != registry.tag || link.slot >= registry.payloads.len() {
            return Err(JsError::TypeMismatch);
        }
        if registry.payloads[link.slot].is_none() {
            return Err(JsError::TypeMismatch);
        }
        Ok(registry.payload_mut(link.slot))
    }

    pub fn as_mut<'o>(&mut self, env: &mut Env, registry: &'o mut WrapRegistry<T>) -> (r: JsResult<&'o mut T>)
        ensures
            *final(self) == *old(self),
            final(registry).tag() == old(registry).tag(),
            r matches Ok(x) ==> attachment_of(old(env)@.attachments, old(self).handle()) matches Some(link)
                && final(registry).payloads() == old(registry).payloads().update(link.slot as int, Some(*final(x))),
            unwrapped(old(env)@, old(self).handle(), old(registry).tag(), old(registry).payloads(), final(env)@,
                match r { Ok(x) => Ok(*x), Err(e) => Err(e) }),
            r is Err ==> final(registry).payloads() == old(registry).payloads(),
    {
        Self::make_mut(env, &mut self.object, registry)
    }
}

} // verus!

verus! {

/// Unwrapping never exposes another type's payload: an attachment made
/// through a registry with another tag gives `TypeMismatch`, and a payload
/// comes back only from the registry whose tag it carries.
pub proof fn lemma_unwrap_checks_type<T>(
    pre: HostModel,
    o: usize,
    tag: u64,
    payloads: Seq<Option<T>>,
    post: HostModel,
    r: JsResult<T>,
)
    requires
        unwrapped(pre, o, tag, payloads, post, r),
    ensures
        valid(pre, o) && is_object_like(pre.heap[o as int]) && (attachment_of(pre.attachments, o) matches Some(link)
            && link.tag != tag) ==> r matches Err(JsError::TypeMismatch),
        r matches Ok(x) ==> (attachment_of(pre.attachments, o) matches Some(link) && link.tag == tag
            && link.slot < payloads.len() && payloads[link.slot as int] == Some(x)),
{
}

} // verus!

verus! {

/// A payload attached through a registry is found again by that registry:
/// after `wrap` succeeded, building a wrap of the object through the same
/// registry gives the object back and changes nothing.
pub proof fn lemma_wrap_then_build<T>(
    pre: HostModel,
    o: usize,
    tag: u64,
    payloads: Seq<Option<T>>,
    data: T,
    mid: HostModel,
    r1: JsResult<()>,
    post: HostModel,
    r2: JsResult<usize>,
)
    requires
        payloads.len() < usize::MAX,
        attached(pre, o, Link { tag, slot: payloads.len() as usize }, mid, r1),
        r1 is Ok,
        wrap_built(mid, o, tag, payloads.push(Some(data)), post, r2),
    ensures
        post == mid,
        r2 == Ok::<usize, JsError>(o),
{
    assert(mid.attachments.drop_last() == pre.attachments);
    assert(payloads.push(Some(data))[payloads.len() as int] == Some(data));
}

} // verus!
