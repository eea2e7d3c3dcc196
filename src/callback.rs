//! Native functions that the host can call.
use vstd::prelude::*;
use vstd::string::StringSliceAdditionalSpecFns;
use crate::env::{Env, HostModel, HostValue, Link, failed, frame_ended, frame_pushed, heap_grew, holds_function, threw, valid};
use crate::error::{JsError, error_after, thrown};
use crate::sys::Status;
use crate::types::{JsArgv, JsFunction};
use crate::value::{IntoRawJsValue, set_named_property, written_then};
use crate::value::{JsValue, JsValueRaw};
use crate::JsResult;

verus! {

/// A native function body: from the scope and the invocation record to a
/// value or an error.
pub trait Callback<T: JsValue> {
    /// What `call` does: from the host before, the record, the host after
    /// and the outcome. A callback that states nothing claims nothing.
    open spec fn called(&self, pre: HostModel, info: CallbackInfo, post: HostModel, r: JsResult<T>) -> bool {
        true
    }

    fn call(&self, env: &mut Env, info: CallbackInfo) -> (r: JsResult<T>)
        ensures
            self.called(old(env)@, info, final(env)@, r),
    ;
}

/// What the host passed to one invocation: the receiver as it is, the
/// argument handles in order, and the data of the registration.
pub struct CallbackInfo {
    pub this: JsValueRaw,
    argv: Vec<usize>,
    data: Link,
}

/// How many argument handles the first query makes room for.
pub const DEFAULT_ARGC: usize = 6;

/// The message of the error raised for a missing argument.
pub open spec fn out_of_bounds_message() -> Seq<u8> {
    "callback.arg: index out of bounds".spec_bytes()
}

/// The error raised when a function's data names no callback of the registry
/// that the host called through.
pub open spec fn unregistered() -> JsError {
    JsError::Error { code: Status::GenericFailure, message: "function is not registered here" }
}

/// `ci` is the record of frame `info` of the host `m`.
pub open spec fn record_of(m: HostModel, info: usize, ci: CallbackInfo) -> bool {
    &&& info < m.frames.len()
    &&& ci.args() == m.frames[info as int].args@
    &&& ci.link() == m.frames[info as int].data
    &&& ci.receiver().handle() == m.frames[info as int].this
}

impl CallbackInfo {
    /// The argument handles, in order.
    pub closed spec fn args(&self) -> Seq<usize> {
        self.argv@
    }

    /// The receiver.
    pub closed spec fn receiver(&self) -> JsValueRaw {
        self.this
    }

    /// The data of the registration.
    pub closed spec fn link(&self) -> Link {
        self.data
    }

    /// Reads the record of invocation `info` from the host. The first query
    /// makes room for six arguments; when the host reports more, a second
    /// query makes room for exactly that many.
    pub fn from_raw(env: &mut Env, info: usize) -> (r: JsResult<CallbackInfo>)
        ensures
            info >= old(env)@.frames.len() ==> final(env)@ == failed(old(env)@, Status::InvalidArg)
                && error_after(r, final(env)@),
            info < old(env)@.frames.len() ==> final(env)@ == old(env)@
                && (r matches Ok(ci) && record_of(old(env)@, info, ci)),
    {
        let (st, argc, argv, this_arg, data) = env.raw_get_cb_info(info, DEFAULT_ARGC);
        if st != Status::Success {
            return Err(JsError::from_env(env));
        }
        let argv = if argc <= argv.len() {
            argv
        } else {
            let (st, _, exact, _, _) = env.raw_get_cb_info(info, argc);
            if st != Status::Success {
                return Err(JsError::from_env(env));
            }
            exact
        };
        proof {
            let fr = old(env)@.frames[info as int];
            assert(argv@ =~= fr.args@);
        }
        Ok(CallbackInfo { this: JsValueRaw::from_raw_unchecked(this_arg), argv, data })
    }

    /// How many arguments the call has.
    pub fn argv_len(&self) -> (r: usize)
        ensures
            r == self.args().len(),
    {
        self.argv.len()
    }

    /// The argument at `index`, built as the variant `T`. A missing argument
    /// raises an out-of-bounds error.
    pub fn arg<T: JsValue>(&self, env: &mut Env, index: usize) -> (r: JsResult<T>)
        ensures
            index < self.args().len() ==> T::from_raw_spec(old(env)@, self.args()[index as int], final(env)@, r),
            index >= self.args().len() ==> {
                &&& r matches Err(JsError::PendingException)
                &&& old(env)@.pending is Some ==> final(env)@ == failed(old(env)@, Status::PendingException)
                &&& old(env)@.pending is None ==> threw(old(env)@, final(env)@, None, out_of_bounds_message())
            },
    {
        if index >= self.argv.len() {
            let e = env.throw(None, "callback.arg: index out of bounds");
            return match e {
                Err(e) => Err(e),
                Ok(()) => Err(JsError::PendingException),
            };
        }
        T::from_raw(env, self.argv[index])
    }

    /// The argument at `index`, as it is.
    pub fn arg_raw(&self, index: usize) -> (r: Option<JsValueRaw>)
        ensures
            index < self.args().len() ==> (r matches Some(v) && v.handle() == self.args()[index as int]),
            index >= self.args().len() ==> r is None,
    {
        if index < self.argv.len() {
            Some(JsValueRaw::from_raw_unchecked(self.argv[index]))
        } else {
            None
        }
    }
}

/// Ends an invocation: a value goes back to the host; an error is raised on
/// the host (a pending exception stays as it is) and the host gets no value.
pub fn finish_call(env: &mut Env, outcome: JsResult<usize>) -> (r: Option<usize>)
    ensures
        outcome matches Ok(h) ==> r == Some(h) && final(env)@ == old(env)@,
        outcome matches Err(e) ==> r is None && thrown(e, old(env)@, final(env)@),
{
    match outcome {
        Ok(h) => Some(h),
        Err(e) => {
            e.throw(env);
            None
        },
    }
}

/// What the trampoline does once the record `ci` was read, with the host
/// then `mid`: the callback that the record names runs once, and its value
/// goes back to the host, or its error is raised and no value goes back. A
/// record that names no callback of the registry raises `unregistered()`.
pub open spec fn ran<T: JsValue, C: Callback<T>>(
    tag: u64,
    callbacks: Seq<C>,
    mid: HostModel,
    ci: CallbackInfo,
    post: HostModel,
    r: Option<usize>,
) -> bool {
    if ci.link().tag == tag && ci.link().slot < callbacks.len() {
        exists|after: HostModel, out: JsResult<T>| {
            &&& #[trigger] callbacks[ci.link().slot as int].called(mid, ci, after, out)
            &&& match out {
                Ok(v) => r == Some(v.handle()) && post == after,
                Err(e) => r is None && thrown(e, after, post),
            }
        }
    } else {
        r is None && thrown(unregistered(), mid, post)
    }
}

/// What the trampoline does for invocation `info`: a missing record raises
/// the boundary's error; otherwise the record is read and `ran` says the rest.
pub open spec fn trampolined<T: JsValue, C: Callback<T>>(
    tag: u64,
    callbacks: Seq<C>,
    pre: HostModel,
    info: usize,
    post: HostModel,
    r: Option<usize>,
) -> bool {
    if info >= pre.frames.len() {
        exists|e: JsError| {
            &&& #[trigger] error_after(Err::<(), JsError>(e), failed(pre, Status::InvalidArg))
            &&& r is None
            &&& thrown(e, failed(pre, Status::InvalidArg), post)
        }
    } else {
        exists|ci: CallbackInfo| #[trigger] record_of(pre, info, ci) && ran::<T, C>(tag, callbacks, pre, ci, post, r)
    }
}

/// The native functions of one callback type. Each registration keeps its
/// callback for as long as the registry lives; every invocation borrows it.
pub struct FunctionRegistry<C> {
    tag: u64,
    callbacks: Vec<C>,
}

impl<C> FunctionRegistry<C> {
    /// The tag that this registry's functions carry.
    pub closed spec fn tag(&self) -> u64 {
        self.tag
    }

    /// The registered callbacks, by slot.
    pub closed spec fn callbacks(&self) -> Seq<C> {
        self.callbacks@
    }

    /// What the host calling function `f` through this registry does: a
    /// value that is no function is refused; otherwise a call record is
    /// added, the trampoline runs on it, and the record is removed.
    pub open spec fn host_called<T: JsValue>(
        &self,
        pre: HostModel,
        f: usize,
        this: usize,
        args: Seq<usize>,
        post: HostModel,
        r: Option<usize>,
    ) -> bool
        where
            C: Callback<T>,
    {
        if valid(pre, f) {
            match pre.heap[f as int] {
                HostValue::Function(link, _) => exists|mid: HostModel, after: HostModel| {
                    &&& frame_pushed(pre, mid, this, args, link)
                    &&& #[trigger] trampolined::<T, C>(self.tag(), self.callbacks(), mid, pre.frames.len() as usize, after, r)
                    &&& post == frame_ended(after)
                },
                _ => r is None && post == failed(pre, Status::FunctionExpected),
            }
        } else {
            r is None && post == failed(pre, Status::InvalidArg)
        }
    }

    /// An empty registry with a tag of its own.
    pub fn new(env: &mut Env) -> (r: JsResult<Self>)
        ensures
            old(env)@.next_tag < u64::MAX ==> (r matches Ok(reg) && reg.tag() == old(env)@.next_tag
                && reg.callbacks().len() == 0)
                && final(env)@ == (HostModel { next_tag: (old(env)@.next_tag + 1) as u64, ..old(env)@ }),
            old(env)@.next_tag == u64::MAX ==> final(env)@ == failed(old(env)@, Status::GenericFailure)
                && error_after(r, final(env)@),
    {
        let (st, tag) = env.raw_new_tag();
        if st != Status::Success {
            return Err(JsError::from_env(env));
        }
        Ok(FunctionRegistry { tag, callbacks: Vec::new() })
    }

    /// Keeps a callback and makes a host function named `name` whose calls
    /// go to it.
    pub fn register<T: JsValue>(&mut self, env: &mut Env, name: &str, callback: C) -> (r: JsResult<JsFunction>)
        where
            C: Callback<T>,
        ensures
            final(self).tag() == old(self).tag(),
            final(self).callbacks() == old(self).callbacks().push(callback),
            heap_grew(old(env)@, final(env)@),
            holds_function(final(env)@.heap.last(),
                Link { tag: old(self).tag(), slot: old(self).callbacks().len() as usize }, name.spec_bytes()),
            r matches Ok(f) && f.handle() == old(env)@.heap.len(),
    {
        let slot = self.callbacks.len();
        self.callbacks.push(callback);
        let (_, value) = env.raw_create_function(name.as_bytes(), Link { tag: self.tag, slot });
        Ok(JsFunction::from_raw_unchecked(value))
    }

    /// The callback that a link names, if it names one of this registry.
    pub fn lookup(&self, link: Link) -> (r: Option<&C>)
        ensures
            link.tag == self.tag() && link.slot < self.callbacks().len() ==> r == Some(&self.callbacks()[link.slot as int]),
            !(link.tag == self.tag() && link.slot < self.callbacks().len()) ==> r is None,
    {
        if link.tag == self.tag && link.slot < self.callbacks.len() {
            Some(&self.callbacks[link.slot])
        } else {
            None
        }
    }

    /// The entry point of every invocation: reads the record, borrows the
    /// registered callback, runs it and hands its value back, or raises its
    /// error and hands back nothing.
    pub fn trampoline<T: JsValue>(&self, env: &mut Env, info: usize) -> (r: Option<usize>)
        where
            C: Callback<T>,
        ensures
            trampolined::<T, C>(self.tag(), self.callbacks(), old(env)@, info, final(env)@, r),
    {
        let cb_info = match CallbackInfo::from_raw(env, info) {
            Ok(x) => x,
            Err(e) => {
                let ghost mid = env@;
                let r = finish_call(env, Err(e));
                assert(error_after(Err::<(), JsError>(e), failed(old(env)@, Status::InvalidArg)));
                return r;
            },
        };
        let ghost mid = env@;
        let ghost ci = cb_info;
        assert(record_of(old(env)@, info, ci));
        let cb = match self.lookup(cb_info.data) {
            Some(cb) => cb,
            None => {
                let e = JsError::Error { code: Status::GenericFailure, message: "function is not registered here" };
                return finish_call(env, Err(e));
            },
        };
        let out = cb.call(env, cb_info);
        let ghost after = env@;
        let ghost gout = out;
        let outcome = match out {
            Ok(v) => Ok(v.as_raw()),
            Err(e) => Err(e),
        };
        let r = finish_call(env, outcome);
        assert(self.callbacks()[ci.link().slot as int].called(mid, ci, after, gout));
        r
    }

    /// Host side: calls function `f` with a receiver and arguments, as the
    /// host does when script code calls it.
    pub fn call_from_host<T: JsValue>(&self, env: &mut Env, f: usize, this: usize, args: &[usize]) -> (r: Option<usize>)
        where
            C: Callback<T>,
        ensures
            self.host_called::<T>(old(env)@, f, this, args@, final(env)@, r),
    {
        let (st, info) = env.begin_call(f, this, args);
        if st != Status::Success {
            return None;
        }
        let ghost mid = env@;
        let r = self.trampoline(env, info);
        let ghost after = env@;
        if env.frame_count() > 0 {
            env.end_call();
        }
        assert(trampolined::<T, C>(self.tag(), self.callbacks(), mid, old(env)@.frames.len() as usize, after, r));
        r
    }
}

/// What calling function `f` from native code gives: the host calls it
/// through `registry`; a value that comes back is built as `R`, and no value
/// gives the error that the host then holds.
pub open spec fn function_called<R: JsValue, T: JsValue, C: Callback<T>>(
    registry: FunctionRegistry<C>,
    pre: HostModel,
    f: usize,
    this: usize,
    args: Seq<usize>,
    post: HostModel,
    r: JsResult<R>,
) -> bool {
    exists|mid: HostModel, h: Option<usize>| {
        &&& #[trigger] registry.host_called::<T>(pre, f, this, args, mid, h)
        &&& match h {
            Some(x) => R::from_raw_spec(mid, x, post, r),
            None => post == mid && error_after(r, post),
        }
    }
}

impl JsFunction {
    /// A host function named `name` whose calls go to `callback`, kept in
    /// `registry`.
    pub fn new<T: JsValue, C: Callback<T>>(env: &mut Env, registry: &mut FunctionRegistry<C>, name: &str, callback: C)
        -> (r: JsResult<JsFunction>)
        ensures
            final(registry).tag() == old(registry).tag(),
            final(registry).callbacks() == old(registry).callbacks().push(callback),
            heap_grew(old(env)@, final(env)@),
            holds_function(final(env)@.heap.last(),
                Link { tag: old(registry).tag(), slot: old(registry).callbacks().len() as usize }, name.spec_bytes()),
            r matches Ok(f) && f.handle() == old(env)@.heap.len(),
    {
        registry.register(env, name, callback)
    }

    /// Calls this function with a receiver and arguments, and builds what it
    /// returns as the variant `R`. Native functions run through `registry`;
    /// a function that raised gives the pending exception.
    pub fn call<TS: JsValue, R: JsValue, T: JsValue, C: Callback<T>>(
        &self,
        env: &mut Env,
        registry: &FunctionRegistry<C>,
        this: &TS,
        argv: JsArgv,
    ) -> (r: JsResult<R>)
        ensures
            function_called::<R, T, C>(*registry, old(env)@, self.handle(), this.handle(), argv.handles(), final(env)@, r),
    {
        let h = registry.call_from_host(env, self.as_raw(), this.as_raw(), argv.as_slice());
        let ghost mid = env@;
        let r = match h {
            Some(h) => R::from_raw(env, h),
            None => Err(JsError::from_env(env)),
        };
        assert(registry.host_called::<T>(old(env)@, self.handle(), this.handle(), argv.handles(), mid, h));
        r
    }

    /// Calls this function, keeping what it returns as it is.
    pub fn call_r<TS: JsValue, T: JsValue, C: Callback<T>>(
        &self,
        env: &mut Env,
        registry: &FunctionRegistry<C>,
        this: &TS,
        argv: JsArgv,
    ) -> (r: JsResult<JsValueRaw>)
        ensures
            function_called::<JsValueRaw, T, C>(*registry, old(env)@, self.handle(), this.handle(), argv.handles(), final(env)@, r),
    {
        self.call(env, registry, this, argv)
    }

    /// Calls this function with one argument.
    pub fn call1<TS: JsValue, A: IntoRawJsValue, R: JsValue, T: JsValue, C: Callback<T>>(
        &self,
        env: &mut Env,
        registry: &FunctionRegistry<C>,
        this: &TS,
        arg: A,
    ) -> (r: JsResult<R>)
        ensures
            function_called::<R, T, C>(*registry, old(env)@, self.handle(), this.handle(), seq![arg.raw_handle()], final(env)@, r),
    {
        let mut argv = JsArgv::new();
        argv.push(arg);
        assert(argv.handles() =~= seq![arg.raw_handle()]);
        self.call(env, registry, this, argv)
    }

    /// Calls this function with one argument, keeping what it returns as it is.
    pub fn call1_r<TS: JsValue, A: IntoRawJsValue, T: JsValue, C: Callback<T>>(
        &self,
        env: &mut Env,
        registry: &FunctionRegistry<C>,
        this: &TS,
        arg: A,
    ) -> (r: JsResult<JsValueRaw>)
        ensures
            function_called::<JsValueRaw, T, C>(*registry, old(env)@, self.handle(), this.handle(), seq![arg.raw_handle()], final(env)@, r),
    {
        self.call1(env, registry, this, arg)
    }

    /// Calls this function with two arguments.
    pub fn call2<TS: JsValue, A1: IntoRawJsValue, A2: IntoRawJsValue, R: JsValue, T: JsValue, C: Callback<T>>(
        &self,
        env: &mut Env,
        registry: &FunctionRegistry<C>,
        this: &TS,
        arg1: A1,
        arg2: A2,
    ) -> (r: JsResult<R>)
        ensures
            function_called::<R, T, C>(*registry, old(env)@, self.handle(), this.handle(),
                seq![arg1.raw_handle(), arg2.raw_handle()], final(env)@, r),
    {
        let mut argv = JsArgv::new();
        argv.push(arg1);
        argv.push(arg2);
        assert(argv.handles() =~= seq![arg1.raw_handle(), arg2.raw_handle()]);
        self.call(env, registry, this, argv)
    }

    /// Calls this function with two arguments, keeping what it returns as it is.
    pub fn call2_r<TS: JsValue, A1: IntoRawJsValue, A2: IntoRawJsValue, T: JsValue, C: Callback<T>>(
        &self,
        env: &mut Env,
        registry: &FunctionRegistry<C>,
        this: &TS,
        arg1: A1,
        arg2: A2,
    ) -> (r: JsResult<JsValueRaw>)
        ensures
            function_called::<JsValueRaw, T, C>(*registry, old(env)@, self.handle(), this.handle(),
                seq![arg1.raw_handle(), arg2.raw_handle()], final(env)@, r),
    {
        self.call2(env, registry, this, arg1, arg2)
    }
}

/// Registers `callback` as a function and stores it on the object under
/// `name`.
pub fn set_function<O: JsValue, T: JsValue, C: Callback<T>>(
    object: &mut O,
    env: &mut Env,
    registry: &mut FunctionRegistry<C>,
    name: &str,
    callback: C,
) -> (r: JsResult<()>)
    ensures
        *final(object) == *old(object),
        final(registry).tag() == old(registry).tag(),
        final(registry).callbacks() == old(registry).callbacks().push(callback),
        exists|mid: HostModel| {
            &&& #[trigger] heap_grew(old(env)@, mid)
            &&& holds_function(mid.heap.last(),
                Link { tag: old(registry).tag(), slot: old(registry).callbacks().len() as usize }, name.spec_bytes())
            &&& written_then(mid, old(object).handle(), name.spec_bytes(), old(env)@.heap.len() as usize, final(env)@, r)
        },
{
    let f = JsFunction::new(env, registry, name, callback)?;
    let ghost mid = env@;
    let r = set_named_property(object, env, name, &f);
    assert(heap_grew(old(env)@, mid));
    r
}

} // verus!
