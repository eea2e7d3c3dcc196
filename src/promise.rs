//! Promises and the deferreds that settle them.
use vstd::prelude::*;
use crate::env::{Env, HostModel, HostValue, PromiseState, failed, valid};
use crate::error::{JsError, error_after};
use crate::sys::Status;
use crate::value::{IntoRawJsValue, JsValue, strict_built};
use crate::JsResult;

verus! {

/// A promise. Built only from a value that the host reports as a promise.
pub struct JsPromise {
    value: usize,
}

/// The single-use capability to settle one promise. Settling consumes it,
/// so a promise is fulfilled or rejected at most once through it.
pub struct JsDeferred {
    deferred: usize,
}

impl JsValue for JsPromise {
    closed spec fn handle(&self) -> usize {
        self.value
    }

    open spec fn from_raw_spec(pre: HostModel, value: usize, post: HostModel, r: JsResult<Self>) -> bool {
        strict_built(pre, value, post, match r { Ok(x) => Ok(x.handle()), Err(e) => Err(e) },
            valid(pre, value) && pre.heap[value as int] is Promise)
    }

    open spec fn is_kind(m: HostModel, h: usize) -> bool {
        valid(m, h) && m.heap[h as int] is Promise
    }

    open spec fn is_strict() -> bool {
        true
    }

    proof fn lemma_round_trip(pre: HostModel, h: usize, post: HostModel, r: JsResult<Self>) {
    }

    proof fn lemma_never_coerced(pre: HostModel, h: usize, post: HostModel, r: JsResult<Self>) {
    }

    fn as_raw(&self) -> (r: usize) {
        self.value
    }

    fn from_raw(env: &mut Env, value: usize) -> (r: JsResult<Self>) {
        let (st, is_promise) = env.raw_is_promise(value);
        if st != Status::Success {
            return Err(JsError::from_env(env));
        }
        if !is_promise {
            return Err(JsError::TypeMismatch);
        }
        Ok(JsPromise { value })
    }
}

impl IntoRawJsValue for JsPromise {
    open spec fn raw_handle(&self) -> usize {
        self.handle()
    }

    fn into_raw_js_value(self) -> (r: usize) {
        self.value
    }
}

/// What settling the promise of deferred `d` with `value` does: a pending
/// promise becomes resolved (`fulfil`) or rejected; anything else fails and
/// leaves every promise as it was.
pub open spec fn settled(pre: HostModel, d: usize, value: usize, fulfil: bool, post: HostModel, r: JsResult<()>) -> bool {
    if pre.pending is Some {
        &&& post == failed(pre, Status::PendingException)
        &&& error_after(r, post)
    } else if d >= pre.promises.len() || pre.promises[d as int] != PromiseState::Pending || !valid(pre, value) {
        &&& post == failed(pre, Status::InvalidArg)
        &&& error_after(r, post)
    } else {
        &&& post == (HostModel {
            promises: pre.promises.update(d as int,
                if fulfil { PromiseState::Resolved(value) } else { PromiseState::Rejected(value) }),
            ..pre
        })
        &&& r is Ok
    }
}

impl JsPromise {
    /// A new pending promise and the deferred that settles it.
    pub fn new(env: &mut Env) -> (r: JsResult<(JsPromise, JsDeferred)>)
        ensures
            r matches Ok((p, d)) && {
                &&& p.handle() == old(env)@.heap.len()
                &&& d.id() == old(env)@.promises.len()
                &&& final(env)@ == (HostModel {
                    promises: old(env)@.promises.push(PromiseState::Pending),
                    heap: old(env)@.heap.push(HostValue::Promise(d.id())),
                    ..old(env)@
                })
            },
    {
        let (_, deferred, value) = env.raw_create_promise();
        Ok((JsPromise { value }, JsDeferred { deferred }))
    }
}

impl JsDeferred {
    /// The index of the promise that this deferred settles.
    pub closed spec fn id(&self) -> usize {
        self.deferred
    }

    /// Fulfils the promise with a value.
    pub fn resolve<V: IntoRawJsValue>(self, env: &mut Env, value: V) -> (r: JsResult<()>)
        ensures
            settled(old(env)@, self.id(), value.raw_handle(), true, final(env)@, r),
    {
        let st = env.raw_settle_deferred(self.deferred, value.into_raw_js_value(), true);
        if st != Status::Success {
            return Err(JsError::from_env(env));
        }
        Ok(())
    }

    /// Rejects the promise with a reason.
    pub fn reject<V: IntoRawJsValue>(self, env: &mut Env, value: V) -> (r: JsResult<()>)
        ensures
            settled(old(env)@, self.id(), value.raw_handle(), false, final(env)@, r),
    {
        let st = env.raw_settle_deferred(self.deferred, value.into_raw_js_value(), false);
        if st != Status::Success {
            return Err(JsError::from_env(env));
        }
        Ok(())
    }
}

} // verus!

verus! {

/// Once a settlement succeeded, any later one of the same promise fails and
/// leaves every promise as it is: a promise is resolved or rejected, never
/// both.
pub proof fn lemma_settles_once(
    pre: HostModel,
    d: usize,
    v1: usize,
    fulfil1: bool,
    mid: HostModel,
    r1: JsResult<()>,
    v2: usize,
    fulfil2: bool,
    post: HostModel,
    r2: JsResult<()>,
)
    requires
        settled(pre, d, v1, fulfil1, mid, r1),
        r1 is Ok,
        settled(mid, d, v2, fulfil2, post, r2),
    ensures
        mid.promises[d as int] == (if fulfil1 { PromiseState::Resolved(v1) } else { PromiseState::Rejected(v1) }),
        r2 is Err,
        post.promises == mid.promises,
{
}

} // verus!
