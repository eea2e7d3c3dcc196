//! A safe, typed layer over a host runtime's native extension boundary.
//!
//! Native code receives an [`env::Env`] for each boundary call and builds
//! values through the typed variants of [`types`]. The boundary itself is the
//! in-memory host held by [`env::Env`]; every operation of the layer goes
//! through its status-returning calls and checks each status.
use vstd::prelude::*;

pub mod sys;
pub mod error;
pub mod env;
pub mod text;
pub mod value;
pub mod types;
pub mod promise;
pub mod callback;
pub mod finalize;
pub mod ts_func;

verus! {

/// The result of every fallible operation of the layer.
pub type JsResult<T> = Result<T, error::JsError>;

} // verus!
