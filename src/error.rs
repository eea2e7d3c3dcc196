//! Errors of the layer.
use vstd::prelude::*;
use crate::sys::Status;
use crate::env::{Env, HostModel, failed, threw};
use crate::JsResult;
use vstd::string::StringSliceAdditionalSpecFns;

verus! {

/// Why an operation of the layer failed.
#[derive(Clone, Copy, Debug)]
pub enum JsError {
    /// A boundary call returned a failure code.
    Error { code: Status, message: &'static str },
    /// The host already holds an exception; it travels up unchanged.
    PendingException,
    /// A local check failed: a strict variant was built from a value of
    /// another type, or a payload was unwrapped as the wrong type.
    TypeMismatch,
}

/// `r` is the error that the layer reports after a boundary call failed,
/// where `m` is the host after the failure: the pending exception when there
/// is one, and else the failure code from the last-error slot.
pub open spec fn error_after<T>(r: JsResult<T>, m: HostModel) -> bool {
    if m.pending is Some {
        r matches Err(JsError::PendingException)
    } else {
        r matches Err(JsError::Error { code, .. }) && code == m.last_status
    }
}

/// The message that a thrown error carries.
pub open spec fn message_of(e: JsError) -> Seq<u8> {
    match e {
        JsError::Error { message, .. } => message.spec_bytes(),
        _ => "type mismatch".spec_bytes(),
    }
}

/// What `throw` does to the host: a pending exception stays as it is;
/// another error is raised unless an exception is already pending.
pub open spec fn thrown(e: JsError, pre: HostModel, post: HostModel) -> bool {
    if e is PendingException {
        post == pre
    } else if pre.pending is Some {
        post == failed(pre, Status::PendingException)
    } else {
        threw(pre, post, None, message_of(e))
    }
}

impl JsError {
    pub fn is_pending_exception(&self) -> (r: bool)
        ensures
            r == (*self is PendingException),
    {
        match self {
            JsError::PendingException => true,
            _ => false,
        }
    }

    /// Reads the host's state after a failed boundary call.
    pub fn from_env(env: &Env) -> (r: JsError)
        ensures
            error_after(Err::<(), JsError>(r), env@),
    {
        if env.raw_is_exception_pending() {
            return JsError::PendingException;
        }
        JsError::Error { code: env.raw_get_last_error_info(), message: "boundary call failed" }
    }

    /// Raises this error on the host, unless it is the pending exception
    /// itself.
    pub fn throw(&self, env: &mut Env)
        ensures
            thrown(*self, old(env)@, final(env)@),
    {
        match self {
            JsError::Error { message, .. } => {
                let _ = env.raw_throw_error(None, message.as_bytes());
            },
            JsError::TypeMismatch => {
                let _ = env.raw_throw_error(None, "type mismatch".as_bytes());
            },
            JsError::PendingException => {},
        }
    }
}

} // verus!
