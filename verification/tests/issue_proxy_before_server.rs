use zbus_names::interface_name::InterfaceName;
use zbus_names::member_name::MemberName;
use zbus_names::unique_name::UniqueName;
use zbus_names::well_known_name::WellKnownName;

// The scenario proper (a proxy's property cache recovering once the service registers its
// interface) needs a running message bus and the proxy machinery, neither of which this crate
// holds. What it does hold is the naming the scenario relies on: the service claims a
// well-known name, the proxy targets an interface at the service's unique name and reads a
// property, and each of these names must be accepted as what it is used for.
#[test]
fn proxy_created_before_interface_added() {
    let service = WellKnownName::try_from("org.zbus.TestPropBeforeIface").unwrap();
    assert_eq!(service.as_str(), "org.zbus.TestPropBeforeIface");
    let interface = InterfaceName::try_from("org.zbus.TestPropBeforeIface").unwrap();
    assert_eq!(interface.as_str(), "org.zbus.TestPropBeforeIface");
    let property = MemberName::try_from("Value").unwrap();
    assert_eq!(property.as_str(), "Value");
    let destination = UniqueName::try_from(":1.42").unwrap();
    assert_eq!(destination.as_str(), ":1.42");
    // A well-known name is no destination's unique name.
    assert!(UniqueName::try_from("org.zbus.TestPropBeforeIface").is_err());
}
