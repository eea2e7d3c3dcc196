//! Calls into the host from other threads, queued for the host's thread.
use vstd::prelude::*;
use std::collections::VecDeque;
use crate::env::{Env, HostModel, holds_text, valid};
use vstd::string::StringSliceAdditionalSpecFns;
use crate::error::{JsError, error_after};
use crate::finalize::{DropFinalizer, JsFinalize};
use crate::sys::{Status, ThreadsafeFunctionCallMode};
use crate::types::{JsFunction, JsString};
use crate::value::JsValue;
use crate::JsResult;

verus! {

/// Why a threadsafe function operation failed.
#[derive(Clone, Copy, Debug)]
pub struct TsError {
    pub status: Status,
}

/// How a queued item is delivered on the host's thread.
pub trait JsCaller<D>: Sized {
    /// What delivering `data` to `func` does to the host. A strategy that
    /// states nothing claims nothing.
    open spec fn delivered(&self, pre: HostModel, func: JsFunction, data: D, post: HostModel) -> bool {
        true
    }

    fn call(&self, env: &mut Env, func: JsFunction, data: D)
        ensures
            self.delivered(old(env)@, func, data, final(env)@),
    ;
}

/// The counters of a bridge.
pub struct BridgeState {
    /// Live references; the bridge closes when they reach zero.
    pub refs: u64,
    /// How many times the dispatch strategy was finalized.
    pub finalizations: nat,
    /// Items waiting for the host's thread.
    pub queued: nat,
    /// The bound of the queue; zero for none.
    pub capacity: usize,
}

/// A bridge right after creation: one reference, nothing queued.
pub open spec fn created(capacity: usize) -> BridgeState {
    BridgeState { refs: 1, finalizations: 0, queued: 0, capacity }
}

/// The queue of a bridge is bounded and full.
pub open spec fn is_full(s: BridgeState) -> bool {
    s.capacity > 0 && s.queued >= s.capacity
}

/// Another reference: refused once the bridge is closed.
pub open spec fn acquired(s: BridgeState) -> (BridgeState, Result<(), Status>) {
    if s.refs == 0 {
        (s, Err(Status::Closing))
    } else if s.refs == u64::MAX {
        (s, Err(Status::GenericFailure))
    } else {
        (BridgeState { refs: (s.refs + 1) as u64, ..s }, Ok(()))
    }
}

/// One reference fewer. The last one closes the bridge: what is queued is
/// dropped and the strategy is finalized.
pub open spec fn released(s: BridgeState) -> (BridgeState, Result<(), Status>) {
    if s.refs == 0 {
        (s, Err(Status::InvalidArg))
    } else if s.refs == 1 {
        (BridgeState { refs: 0, finalizations: s.finalizations + 1, queued: 0, ..s }, Ok(()))
    } else {
        (BridgeState { refs: (s.refs - 1) as u64, ..s }, Ok(()))
    }
}

/// An item handed to the queue: refused by a closed bridge, and by a full
/// queue in non-blocking mode.
pub open spec fn called(s: BridgeState) -> (BridgeState, Result<(), Status>) {
    if s.refs == 0 {
        (s, Err(Status::Closing))
    } else if is_full(s) {
        (s, Err(Status::QueueFull))
    } else {
        (BridgeState { queued: s.queued + 1, ..s }, Ok(()))
    }
}

/// A bridge through which any thread can ask for `func` to be called on the
/// host's thread with an item of type `D`, delivered by the strategy `C`.
pub struct ThreadSafeFunction<D, C> {
    func: usize,
    caller: Option<C>,
    queue: VecDeque<D>,
    refs: u64,
    capacity: usize,
    finalizations: u64,
}

impl<D, C: JsCaller<D>> ThreadSafeFunction<D, C> {
    pub closed spec fn state(&self) -> BridgeState {
        BridgeState {
            refs: self.refs,
            finalizations: self.finalizations as nat,
            queued: self.queue@.len(),
            capacity: self.capacity,
        }
    }

    /// The items waiting, first in first out.
    pub closed spec fn queue(&self) -> Seq<D> {
        self.queue@
    }

    /// The function that the items are delivered to.
    pub closed spec fn func(&self) -> usize {
        self.func
    }

    /// The delivery strategy, until the bridge closes.
    pub closed spec fn strategy(&self) -> Option<C> {
        self.caller
    }

    /// A live bridge holds its strategy and has not been finalized; a closed
    /// one was finalized once and holds nothing.
    pub open spec fn wf(&self) -> bool {
        &&& (self.state().refs == 0) == (self.strategy() is None)
        &&& self.state().finalizations <= 1
        &&& (self.state().finalizations == 1) == (self.state().refs == 0)
        &&& self.state().refs == 0 ==> self.state().queued == 0
    }

    /// Live references.
    pub fn refs(&self) -> (r: u64)
        ensures
            r == self.state().refs,
    {
        self.refs
    }

    /// How many times the strategy was finalized.
    pub fn finalizations(&self) -> (r: u64)
        ensures
            r == self.state().finalizations,
    {
        self.finalizations
    }

    /// Items waiting for the host's thread.
    pub fn queued(&self) -> (r: usize)
        ensures
            r == self.state().queued,
    {
        self.queue.len()
    }

    /// A bridge with an unbounded queue.
    pub fn new(env: &mut Env, func: JsFunction, js_caller: C) -> (r: JsResult<Self>)
        ensures
            bridge_created(old(env)@, func.handle(), 0, final(env)@, r),
    {
        Self::with_queue_size(env, func, js_caller, 0)
    }

    /// A bridge whose queue holds at most `capacity` items; zero for no bound.
    pub fn with_queue_size(env: &mut Env, func: JsFunction, js_caller: C, capacity: usize) -> (r: JsResult<Self>)
        ensures
            bridge_created(old(env)@, func.handle(), capacity, final(env)@, r),
    {
        let _name: JsString = JsString::new(env, "NODE_NATIVE_TS_FUNC")?;
        let func = JsFunction::from_raw(env, func.as_raw());
        let func = match func {
            Ok(f) => f,
            Err(JsError::TypeMismatch) => return Err(JsError::Error {
                code: Status::FunctionExpected,
                message: "threadsafe function target is not a function",
            }),
            Err(e) => return Err(e),
        };
        Ok(ThreadSafeFunction {
            func: func.as_raw(),
            caller: Some(js_caller),
            queue: VecDeque::new(),
            refs: 1,
            capacity,
            finalizations: 0,
        })
    }

    /// Hands an item to the queue. A closed bridge refuses it with
    /// `Closing`; a full queue refuses it with `QueueFull`. With nothing
    /// else to drain the queue while the caller waits, a blocking call that
    /// finds the queue full reports `QueueFull` as well.
    pub fn call(&mut self, data: D, mode: ThreadsafeFunctionCallMode) -> (r: Result<(), TsError>)
        requires
            old(self).wf(),
        ensures
            final(self).wf(),
            final(self).strategy() == old(self).strategy(),
            final(self).state() == called(old(self).state()).0,
            final(self).func() == old(self).func(),
            r matches Ok(_) ==> called(old(self).state()).1 is Ok && final(self).queue() == old(self).queue().push(data),
            r matches Err(e) ==> called(old(self).state()).1 == Err::<(), Status>(e.status)
                && final(self).queue() == old(self).queue(),
    {
        if self.refs == 0 {
            return Err(TsError { status: Status::Closing });
        }
        if self.capacity > 0 && self.queue.len() >= self.capacity {
            return Err(TsError { status: Status::QueueFull });
        }
        self.queue.push_back(data);
        Ok(())
    }

    /// Another reference to the same bridge.
    pub fn clone(&mut self) -> (r: Result<(), TsError>)
        requires
            old(self).wf(),
        ensures
            final(self).wf(),
            final(self).strategy() == old(self).strategy(),
            final(self).state() == acquired(old(self).state()).0,
            final(self).queue() == old(self).queue(),
            final(self).func() == old(self).func(),
            r matches Ok(_) ==> acquired(old(self).state()).1 is Ok,
            r matches Err(e) ==> acquired(old(self).state()).1 == Err::<(), Status>(e.status),
    {
        if self.refs == 0 {
            return Err(TsError { status: Status::Closing });
        }
        if self.refs == u64::MAX {
            return Err(TsError { status: Status::GenericFailure });
        }
        self.refs = self.refs + 1;
        Ok(())
    }

    /// Gives up a reference. The last one closes the bridge and finalizes
    /// the strategy, once.
    pub fn release(&mut self, env: &mut Env) -> (r: Result<(), TsError>)
        requires
            old(self).wf(),
        ensures
            final(self).wf(),
            final(env)@ == old(env)@,
            old(self).state().refs > 1 ==> final(self).strategy() == old(self).strategy(),
            final(self).state() == released(old(self).state()).0,
            final(self).func() == old(self).func(),
            old(self).state().refs > 1 ==> final(self).queue() == old(self).queue(),
            r matches Ok(_) ==> released(old(self).state()).1 is Ok,
            r matches Err(e) ==> released(old(self).state()).1 == Err::<(), Status>(e.status),
    {
        if self.refs == 0 {
            return Err(TsError { status: Status::InvalidArg });
        }
        self.refs = self.refs - 1;
        if self.refs == 0 {
            self.queue.clear();
            if let Some(mut caller) = self.caller.take() {
                DropFinalizer::<C>::finalize(env, &mut caller);
            }
            self.finalizations = self.finalizations + 1;
        }
        Ok(())
    }

    /// Host side: delivers the oldest item, if any, through the strategy.
    pub fn dispatch(&mut self, env: &mut Env) -> (r: bool)
        requires
            old(self).wf(),
        ensures
            final(self).wf(),
            r == (old(self).queue().len() > 0),
            r ==> final(self).queue() == old(self).queue().drop_first(),
            r ==> (old(self).strategy() matches Some(c) && exists|f: JsFunction| f.handle() == old(self).func()
                && #[trigger] c.delivered(old(env)@, f, old(self).queue()[0], final(env)@)),
            !r ==> final(self).queue() == old(self).queue() && final(env)@ == old(env)@,
            final(self).strategy() == old(self).strategy(),
            final(self).state().refs == old(self).state().refs,
            final(self).state().finalizations == old(self).state().finalizations,
            final(self).func() == old(self).func(),
    {
        let data = match self.queue.pop_front() {
            Some(d) => d,
            None => return false,
        };
        match &self.caller {
            Some(caller) => {
                let f = JsFunction::from_raw_unchecked(self.func);
                let ghost gf = f;
                caller.call(env, f, data);
                assert(gf.handle() == old(self).func());
            },
            None => {},
        }
        true
    }
}

/// A bridge to `func` with the strategy `caller` and an unbounded queue.
pub fn make_ts_func<D, C: JsCaller<D>>(caller: C, env: &mut Env, func: JsFunction) -> (r: JsResult<ThreadSafeFunction<D, C>>)
    ensures
        bridge_created(old(env)@, func.handle(), 0, final(env)@, r),
{
    ThreadSafeFunction::new(env, func, caller)
}

/// What creating a bridge does: the name of its resource is made as a new
/// string first, and then the target must be a function.
pub open spec fn bridge_created<D, C: JsCaller<D>>(
    pre: HostModel,
    func: usize,
    capacity: usize,
    post: HostModel,
    r: JsResult<ThreadSafeFunction<D, C>>,
) -> bool {
    &&& post.heap.len() == pre.heap.len() + 1
    &&& post.heap.subrange(0, pre.heap.len() as int) == pre.heap
    &&& holds_text(post.heap.last(), "NODE_NATIVE_TS_FUNC".spec_bytes())
    &&& post == (HostModel { heap: post.heap, last_status: post.last_status, ..pre })
    &&& if valid(pre, func) && pre.heap[func as int] is Function {
        &&& post.last_status == pre.last_status
        &&& (r matches Ok(t) && t.wf() && t.state() == created(capacity) && t.queue().len() == 0
            && t.func() == func && t.strategy() is Some)
    } else if func <= pre.heap.len() {
        &&& post.last_status == pre.last_status
        &&& (r matches Err(JsError::Error { code, .. }) && code == Status::FunctionExpected)
    } else {
        &&& post.last_status == Status::InvalidArg
        &&& error_after(r, post)
    }
}

} // verus!

verus! {

/// The bridge after `n` more references were taken.
pub open spec fn acquire_n(s: BridgeState, n: nat) -> BridgeState
    decreases n,
{
    if n == 0 {
        s
    } else {
        acquired(acquire_n(s, (n - 1) as nat)).0
    }
}

/// The bridge after `n` references were given up.
pub open spec fn release_n(s: BridgeState, n: nat) -> BridgeState
    decreases n,
{
    if n == 0 {
        s
    } else {
        released(release_n(s, (n - 1) as nat)).0
    }
}

proof fn lemma_acquire_n(capacity: usize, n: nat)
    requires
        n < u64::MAX,
    ensures
        acquire_n(created(capacity), n) == (BridgeState { refs: (n + 1) as u64, ..created(capacity) }),
    decreases n,
{
    if n > 0 {
        lemma_acquire_n(capacity, (n - 1) as nat);
    }
}

proof fn lemma_release_n(s: BridgeState, n: nat)
    requires
        n < s.refs,
    ensures
        release_n(s, n) == (BridgeState { refs: (s.refs - n) as u64, ..s }),
    decreases n,
{
    if n > 0 {
        lemma_release_n(s, (n - 1) as nat);
    }
}

/// On a new bridge, after `n` more references are taken and `n + 1` are
/// given up, the strategy has been finalized exactly once, the bridge takes
/// no more items or references, and a further release finalizes nothing.
pub proof fn lemma_balanced_release(capacity: usize, n: nat)
    requires
        n < u64::MAX,
    ensures
        ({
            let s = release_n(acquire_n(created(capacity), n), n + 1);
            &&& s.refs == 0
            &&& s.finalizations == 1
            &&& called(s).1 == Err::<(), Status>(Status::Closing)
            &&& acquired(s).1 == Err::<(), Status>(Status::Closing)
            &&& released(s).0.finalizations == 1
        }),
{
    lemma_acquire_n(capacity, n);
    let a = acquire_n(created(capacity), n);
    lemma_release_n(a, n);
    assert(release_n(a, n + 1) == released(release_n(a, n)).0);
}

} // verus!
