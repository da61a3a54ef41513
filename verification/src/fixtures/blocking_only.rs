//! A proxy for `org.zbus.BlockingOnly` that declines the asynchronous proxy, with a `changed`
//! signal: where the target has no blocking API nothing at all is generated, so the names
//! of the blocking proxy and of its signal types are free.
use vstd::prelude::*;

verus! {

/// Free: the blocking proxy would take this name.
pub struct BlockingOnlyProxy;

/// Free: the arguments of the `changed` signal would take this name.
pub struct ChangedArgs;

/// Free: the iterator over `changed` signals would take this name.
pub struct ChangedIterator;

} // verus!
