use zbus_names::fixtures::{blocking_only, default_options, explicit_false, explicit_true, mixed_version};

#[test]
fn asynchronous_proxy_types_are_there() {
    default_options::async_types(default_options::DefaultOptionsProxy, default_options::ChangedArgs);
    explicit_true::async_type(explicit_true::ExplicitTrueProxy);
    explicit_false::async_type(explicit_false::ExplicitFalseProxy);
    mixed_version::async_types(mixed_version::MixedVersionProxy, mixed_version::ChangedArgs);
    let _ = (
        default_options::DefaultOptionsProxyBlocking,
        explicit_true::ExplicitBlocking,
        explicit_false::ExplicitFalseProxyBlocking,
        blocking_only::BlockingOnlyProxy,
        blocking_only::ChangedArgs,
        blocking_only::ChangedIterator,
        mixed_version::MixedVersionProxyBlocking,
    );
}
