//! A proxy for `org.zbus.ExplicitTrue` that asks for a blocking proxy named
//! `ExplicitBlocking`: the request yields nothing where the target has no blocking API.
use vstd::prelude::*;

verus! {

/// The asynchronous proxy of `org.zbus.ExplicitTrue`.
pub struct ExplicitTrueProxy;

/// Free, since the requested blocking proxy is not generated.
pub struct ExplicitBlocking;

/// Names the asynchronous type.
pub fn async_type(_proxy: ExplicitTrueProxy) {
}

} // verus!
