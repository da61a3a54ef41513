//! Compile-only regressions for proxies declared against a target zbus that has no blocking
//! API, in the shape that such declarations take without the blocking feature: each module
//! holds the types a declaration yields, and free-standing types under the names that a
//! blocking proxy would take, which would clash with a generated one.

pub mod blocking_only;
pub mod default_options;
pub mod explicit_false;
pub mod explicit_true;
pub mod mixed_version;
