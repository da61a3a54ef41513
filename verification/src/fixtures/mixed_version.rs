//! A proxy for `org.zbus.MixedVersion` (default service `org.zbus.MixedVersion`, default path
//! `/org/zbus/MixedVersion`) with a `changed` signal, paired with an already-released zbus
//! without its blocking API: only the asynchronous types exist.
use vstd::prelude::*;

verus! {

/// The asynchronous proxy of `org.zbus.MixedVersion`.
pub struct MixedVersionProxy;

/// The arguments of the `changed` signal.
pub struct ChangedArgs;

/// Free, since no blocking proxy is generated.
pub struct MixedVersionProxyBlocking;

/// Names the asynchronous types.
pub fn async_types(_proxy: MixedVersionProxy, _args: ChangedArgs) {
}

} // verus!
