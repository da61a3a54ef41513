//! A proxy for `org.zbus.DefaultOptions` with the default options, and a `changed` signal:
//! the asynchronous proxy and the signal's arguments exist; the blocking proxy does not,
//! since the target has no blocking API.
use vstd::prelude::*;

verus! {

/// The asynchronous proxy of `org.zbus.DefaultOptions`.
pub struct DefaultOptionsProxy;

/// The arguments of the `changed` signal.
pub struct ChangedArgs;

/// Free, since no blocking proxy is generated.
pub struct DefaultOptionsProxyBlocking;

/// Names the asynchronous types.
pub fn async_types(_proxy: DefaultOptionsProxy, _args: ChangedArgs) {
}

} // verus!
