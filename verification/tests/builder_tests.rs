use std::sync::Arc;

use comms::builder::{CommsBuilder, CommsBuilderError, CommsServices, CommsServicesError};
use comms::connection::{ConnectionError, InprocAddress, ZmqContext};
use comms::connection_manager::{ConnectionManager, PeerConnectionConfig};
use comms::control_service::{ControlServiceConfig, ControlServiceError, ControlServiceHandle};
use comms::inbound::ImsJoinHandle;
use comms::outbound::OutboundMessageService;
use comms::peer_manager::{CommsDataStore, Factory, NodeIdentity, PeerManager};
use comms::routes::CommsRoutes;

#[test]
fn new_no_control_service() {
    let comms_services = CommsBuilder::new()
        .with_routes(CommsRoutes::new().register("hello".to_owned()))
        .with_node_identity(NodeIdentity::random_for_test(None))
        .build()
        .unwrap();

    assert!(comms_services.control_service.is_none());
}

#[test]
fn new_with_control_service() {
    let comms_services = CommsBuilder::new()
        .with_routes(CommsRoutes::new().register("hello".to_owned()))
        .with_node_identity(NodeIdentity::random_for_test(None))
        .configure_control_service(ControlServiceConfig::default())
        .build()
        .unwrap();

    assert!(comms_services.control_service.is_some());
}

#[test]
fn build_without_identity_fails() {
    let result = CommsBuilder::new()
        .with_routes(CommsRoutes::new().register("hello".to_owned()))
        .configure_control_service(ControlServiceConfig::default())
        .build();

    assert!(matches!(result, Err(CommsBuilderError::NodeIdentityNotSet)));
}

#[test]
fn build_without_routes_fails() {
    let result = CommsBuilder::new()
        .with_node_identity(NodeIdentity::random_for_test(None))
        .build();

    assert!(matches!(result, Err(CommsBuilderError::RoutesNotDefined)));
}

struct InMemoryStoreFactory {}

impl Factory for InMemoryStoreFactory {
    fn make(&self) -> CommsDataStore {
        CommsDataStore {}
    }
}

#[test]
fn build_with_peer_storage() {
    let container = CommsBuilder::new()
        .with_routes(CommsRoutes::new().register("hello".to_owned()))
        .with_node_identity(NodeIdentity::random_for_test(None))
        .with_peer_storage(InMemoryStoreFactory {})
        .build()
        .unwrap();

    assert!(container.control_service.is_none());
}

#[test]
fn start_without_control_service_has_no_listener_handle() {
    let container = CommsBuilder::new()
        .with_routes(CommsRoutes::new().register("hello".to_owned()))
        .with_node_identity(NodeIdentity::random_for_test(None))
        .build()
        .unwrap();
    assert!(container.control_service.is_none());

    let services = container.start().unwrap();
    assert!(services.control_service_handle.is_none());
}

#[test]
fn start_with_control_service_has_live_listener_handle() {
    let container = CommsBuilder::new()
        .with_routes(CommsRoutes::new().register("hello".to_owned()))
        .with_node_identity(NodeIdentity::random_for_test(None))
        .configure_control_service(ControlServiceConfig::default())
        .build()
        .unwrap();
    assert!(container.control_service.is_some());

    let services = container.start().unwrap();
    assert!(services.control_service_handle.is_some());
}

#[test]
fn generated_sink_addresses_distinct_across_nodes() {
    let first = CommsBuilder::new()
        .with_routes(CommsRoutes::new().register("hello".to_owned()))
        .with_node_identity(NodeIdentity::random_for_test(None))
        .build()
        .unwrap();
    let second = CommsBuilder::new()
        .with_routes(CommsRoutes::new().register("hello".to_owned()))
        .with_node_identity(NodeIdentity::random_for_test(None))
        .build()
        .unwrap();

    let addresses = [
        first.inbound_message_service.message_sink_address,
        first.outbound_message_service.message_sink_address,
        second.inbound_message_service.message_sink_address,
        second.outbound_message_service.message_sink_address,
    ];
    for i in 0..addresses.len() {
        assert!(!addresses[i].is_default());
        for j in 0..i {
            assert_ne!(addresses[j], addresses[i]);
        }
    }
}

#[test]
fn explicit_message_sink_address_is_preserved() {
    let explicit = InprocAddress { token: 42 };
    let container = CommsBuilder::new()
        .with_routes(CommsRoutes::new().register("hello".to_owned()))
        .with_node_identity(NodeIdentity::random_for_test(None))
        .configure_peer_connections(PeerConnectionConfig { message_sink_address: explicit })
        .build()
        .unwrap();

    assert_eq!(container.connection_manager.config.message_sink_address, explicit);
    assert_eq!(container.inbound_message_service.message_sink_address, explicit);
}

#[test]
fn default_message_sink_address_is_replaced() {
    let container = CommsBuilder::new()
        .with_routes(CommsRoutes::new().register("hello".to_owned()))
        .with_node_identity(NodeIdentity::random_for_test(None))
        .configure_peer_connections(PeerConnectionConfig::default())
        .build()
        .unwrap();

    assert!(!container.connection_manager.config.message_sink_address.is_default());
    assert_eq!(
        container.inbound_message_service.message_sink_address,
        container.connection_manager.config.message_sink_address
    );
}

#[test]
fn inbound_and_outbound_sinks_differ() {
    let container = CommsBuilder::new()
        .with_routes(CommsRoutes::new().register("hello".to_owned()))
        .with_node_identity(NodeIdentity::random_for_test(None))
        .build()
        .unwrap();

    assert_ne!(
        container.outbound_message_service.message_sink_address,
        container.inbound_message_service.message_sink_address
    );
    assert_eq!(
        container.outbound_message_pool.intake_address,
        container.outbound_message_service.message_sink_address
    );
    assert_eq!(
        container.outbound_message_pool.requeue_address,
        container.outbound_message_pool.intake_address
    );
}

#[test]
fn connectors_for_registered_types_have_distinct_addresses() {
    let routes = CommsRoutes::new().register("first".to_owned()).register("second".to_owned());
    let services = CommsBuilder::new()
        .with_routes(routes)
        .with_node_identity(NodeIdentity::random_for_test(None))
        .build()
        .unwrap()
        .start()
        .unwrap();

    let a = services.create_connector(&"first".to_owned()).unwrap();
    let b = services.create_connector(&"second".to_owned()).unwrap();
    assert_ne!(a.address, b.address);

    let missing = services.create_connector(&"third".to_owned());
    assert!(matches!(missing, Err(CommsServicesError::MessageTypeNotRegistered)));
}

#[test]
fn full_lifecycle_with_control_service_shuts_down_cleanly() {
    let services = CommsBuilder::new()
        .with_routes(CommsRoutes::new().register("hello".to_owned()))
        .with_node_identity(NodeIdentity::random_for_test(None))
        .configure_control_service(ControlServiceConfig::default())
        .build()
        .unwrap()
        .start()
        .unwrap();
    assert!(services.control_service_handle.is_some());

    assert!(services.shutdown().is_ok());
}

#[test]
fn lifecycle_without_control_service_yields_usable_sender() {
    let container = CommsBuilder::new()
        .with_routes(CommsRoutes::new().register("hello".to_owned()))
        .with_node_identity(NodeIdentity::random_for_test(None))
        .build()
        .unwrap();
    let expected_sink = container.outbound_message_service.message_sink_address;

    let services = container.start().unwrap();
    let sender = services.get_outbound_message_service();
    assert!(!sender.message_sink_address.is_default());
    assert_eq!(sender.message_sink_address, expected_sink);

    assert!(services.shutdown().is_ok());
}

#[test]
fn clean_shutdown_verdict_empty_results() {
    let verdict = CommsServices::check_clean_shutdown(Vec::new());
    assert!(verdict.is_ok());
}

#[test]
fn clean_shutdown_verdict_all_ok() {
    let results: Vec<Result<(), CommsServicesError>> = vec![Ok(()), Ok(())];
    assert!(CommsServices::check_clean_shutdown(results).is_ok());
}

#[test]
fn unclean_shutdown_verdict_on_any_failure() {
    let results: Vec<Result<(), CommsServicesError>> = vec![
        Ok(()),
        Err(CommsServicesError::ControlServiceError(ControlServiceError {})),
    ];
    let verdict = CommsServices::check_clean_shutdown(results);
    assert!(matches!(verdict, Err(CommsServicesError::UncleanShutdown)));
}

fn node_with_failing_parts(
    listener_outcome: Option<Result<(), ControlServiceError>>,
    connection_outcomes: Vec<Result<(), ConnectionError>>,
) -> CommsServices {
    let fresh_manager = |outcomes: Vec<Result<(), ConnectionError>>| {
        let mut manager = ConnectionManager::new(
            ZmqContext::new(),
            Arc::new(NodeIdentity::random_for_test(None)),
            Arc::new(PeerManager::new(None).unwrap()),
            PeerConnectionConfig::default(),
        );
        manager.shutdown_results = outcomes;
        Arc::new(manager)
    };
    let sender = OutboundMessageService::new(
        ZmqContext::new(),
        Arc::new(NodeIdentity::random_for_test(None)),
        InprocAddress { token: 5 },
        Arc::new(PeerManager::new(None).unwrap()),
    )
    .unwrap();
    CommsServices {
        zmq_context: ZmqContext::new(),
        outbound_message_service: Arc::new(sender),
        routes: CommsRoutes::new(),
        control_service_handle: listener_outcome.map(|outcome| ControlServiceHandle {
            connection_manager: fresh_manager(Vec::new()),
            shutdown_outcome: outcome,
        }),
        ims_handle: ImsJoinHandle {},
        connection_manager: fresh_manager(connection_outcomes),
    }
}

#[test]
fn shutdown_is_unclean_when_the_listener_fails_to_stop() {
    let services = node_with_failing_parts(Some(Err(ControlServiceError {})), Vec::new());
    let verdict = services.shutdown();
    assert!(matches!(verdict, Err(CommsServicesError::UncleanShutdown)));
}

#[test]
fn shutdown_is_unclean_when_a_connection_fails_to_stop() {
    let services =
        node_with_failing_parts(None, vec![Ok(()), Err(ConnectionError {})]);
    let verdict = services.shutdown();
    assert!(matches!(verdict, Err(CommsServicesError::UncleanShutdown)));
}

#[test]
fn shutdown_is_clean_when_every_recorded_outcome_succeeded() {
    let services = node_with_failing_parts(Some(Ok(())), vec![Ok(()), Ok(())]);
    assert!(services.shutdown().is_ok());
}
