//! Native cleanup that the host runs when it lets go of native data.
use vstd::prelude::*;
use core::marker::PhantomData;
use crate::env::{Env, HostModel};

verus! {

/// Cleanup for boxed native data, run exactly once by the host when the
/// value that owns the data goes away; the data is dropped right after.
pub trait JsFinalize {
    type Item;

    /// What the cleanup does to the host.
    spec fn finalize_spec(pre: HostModel, post: HostModel) -> bool;

    fn finalize(env: &mut Env, data: &mut Self::Item)
        ensures
            Self::finalize_spec(old(env)@, final(env)@),
    ;
}

/// The finalizer that does nothing beyond dropping the data.
pub struct DropFinalizer<D> {
    _m: PhantomData<D>,
}

impl<D> JsFinalize for DropFinalizer<D> {
    type Item = D;

    open spec fn finalize_spec(pre: HostModel, post: HostModel) -> bool {
        post == pre
    }

    fn finalize(_env: &mut Env, _data: &mut D) {
    }
}

} // verus!
