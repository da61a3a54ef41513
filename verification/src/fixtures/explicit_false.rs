//! A proxy for `org.zbus.ExplicitFalse` that declines a blocking proxy: none is generated,
//! whatever the target offers.
use vstd::prelude::*;

verus! {

/// The asynchronous proxy of `org.zbus.ExplicitFalse`.
pub struct ExplicitFalseProxy;

/// Free, since no blocking proxy is generated.
pub struct ExplicitFalseProxyBlocking;

/// Names the asynchronous type.
pub fn async_type(_proxy: ExplicitFalseProxy) {
}

} // verus!
