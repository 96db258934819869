use comms::connection::{DomainConnector, InprocAddress, ZmqContext};
use comms::connection_manager::PeerConnectionConfig;
use comms::control_service::ControlServiceConfig;
use comms::outbound::OutboundMessagePoolConfig;
use comms::peer_manager::{NetAddress, NodeIdentity};
use comms::routes::CommsRoutes;

#[test]
fn empty_routes_resolve_nothing() {
    let routes = CommsRoutes::new();
    assert!(routes.get_address(&"hello".to_owned()).is_none());
}

#[test]
fn registered_route_resolves_to_its_address() {
    let routes = CommsRoutes::new().register("hello".to_owned());
    let address = routes.get_address(&"hello".to_owned()).unwrap();
    assert!(!address.is_default());
    assert!(routes.get_address(&"other".to_owned()).is_none());
}

#[test]
fn registered_routes_have_distinct_addresses() {
    let routes = CommsRoutes::new()
        .register("a".to_owned())
        .register("b".to_owned())
        .register("c".to_owned());
    let a = routes.get_address(&"a".to_owned()).unwrap();
    let b = routes.get_address(&"b".to_owned()).unwrap();
    let c = routes.get_address(&"c".to_owned()).unwrap();
    assert_ne!(a, b);
    assert_ne!(a, c);
    assert_ne!(b, c);
}

#[test]
fn re_registering_replaces_the_address() {
    let routes = CommsRoutes::new().register("hello".to_owned());
    let before = routes.get_address(&"hello".to_owned()).unwrap();
    let routes = routes.register("hello".to_owned());
    let after = routes.get_address(&"hello".to_owned()).unwrap();
    assert_ne!(before, after);
    assert_eq!(routes.inner().len(), 1);
}

#[test]
fn random_address_is_never_default() {
    assert!(InprocAddress::default().is_default());
    let a = InprocAddress::random();
    assert!(!a.is_default());
}

#[test]
fn random_excluding_avoids_given_addresses() {
    let excluded = vec![
        InprocAddress { token: 1 },
        InprocAddress { token: 2 },
        InprocAddress { token: 3 },
    ];
    let fresh = InprocAddress::random_excluding(&excluded);
    assert!(!fresh.is_default());
    for e in &excluded {
        assert_ne!(fresh, *e);
    }
}

#[test]
fn domain_connector_binds_the_given_address() {
    let context = ZmqContext::new();
    let address = InprocAddress { token: 7 };
    let connector = DomainConnector::listen(&context, &address).unwrap();
    assert_eq!(connector.address, address);
}

#[test]
fn default_configurations() {
    assert!(PeerConnectionConfig::default().message_sink_address.is_default());
    assert_eq!(OutboundMessagePoolConfig::default().max_retries, 10);
    assert_eq!(ControlServiceConfig::default().listener_address.value, "0.0.0.0:0");
}

#[test]
fn identity_keeps_the_supplied_address() {
    let address = NetAddress { value: "10.0.0.1:9000".to_owned() };
    let identity = NodeIdentity::random_for_test(Some(address));
    assert_eq!(identity.control_service_address.value, "10.0.0.1:9000");
}
