use vstd::prelude::*;

verus! {

use std::sync::Arc;
use crate::connection::{
    ConnectionError,
    ConnectorError,
    DealerProxyError,
    DomainConnector,
    InprocAddress,
    ZmqContext,
};
use crate::connection_manager::{ConnectionManager, PeerConnectionConfig};
use crate::control_service::{ControlService, ControlServiceConfig, ControlServiceError, ControlServiceHandle};
use crate::inbound::{
    construct_comms_msg_dispatcher,
    BrokerError,
    ImsJoinHandle,
    InboundMessageBroker,
    InboundMessageService,
};
use crate::outbound::{
    OutboundError,
    OutboundMessagePool,
    OutboundMessagePoolConfig,
    OutboundMessageService,
};
use crate::peer_manager::{CommsDataStore, Factory, NodeIdentity, PeerManager, PeerManagerError};
use crate::routes::CommsRoutes;

/// Relies on std::sync::Arc::clone: the returned handle refers to the same value.
#[verifier::external_body]
fn arc_clone<T>(v: &Arc<T>) -> (r: Arc<T>)
    ensures
        r == *v,
{
    Arc::clone(v)
}

/// Relies on std::sync::Arc::try_unwrap: yields the inner value exactly when
/// the given handle is the last one referring to it, and gives the handle back
/// otherwise.
#[verifier::external_body]
fn arc_try_unwrap<T>(v: Arc<T>) -> (r: Result<T, Arc<T>>)
    ensures
        match r {
            Ok(t) => t == v,
            Err(e) => e == v,
        },
{
    Arc::try_unwrap(v)
}

/// Failure while validating the configuration or constructing a service at
/// build time.
#[derive(Clone, Copy, PartialEq, Eq, Structural, Debug)]
pub enum CommsBuilderError {
    PeerManagerError(PeerManagerError),
    InboundMessageServiceError(ConnectionError),
    OutboundMessageServiceError(OutboundError),
    OutboundMessagePoolError(OutboundError),
    /// Node identity not set. Call `with_node_identity(node_identity)` on [CommsBuilder].
    NodeIdentityNotSet,
    DealerProxyError(DealerProxyError),
    /// Comms routes have not been defined. Call `with_routes` on [CommsBuilder].
    RoutesNotDefined,
}

/// Mutable configuration accumulator for one comms node. Every slot is
/// optional until `build` validates the mandatory ones and constructs the
/// services in dependency order.
pub struct CommsBuilder {
    pub zmq_context: ZmqContext,
    pub peer_storage_factory: Option<Box<dyn Factory>>,
    pub routes: Option<CommsRoutes>,
    pub control_service_config: Option<ControlServiceConfig>,
    pub omp_config: Option<OutboundMessagePoolConfig>,
    pub node_identity: Option<NodeIdentity>,
    pub peer_conn_config: Option<PeerConnectionConfig>,
}

impl CommsBuilder {
    /// Validity of the accumulated configuration: a supplied route table is
    /// well-formed and has room for one more unique address.
    pub open spec fn wf(self) -> bool {
        self.routes matches Some(rt) ==> rt.wf() && rt@.len() + 1 < usize::MAX
    }

    /// An empty builder with every slot unset.
    pub fn new() -> (r: CommsBuilder)
        ensures
            r.peer_storage_factory is None,
            r.routes is None,
            r.control_service_config is None,
            r.omp_config is None,
            r.node_identity is None,
            r.peer_conn_config is None,
            r.wf(),
    {
        let zmq_context = ZmqContext::new();

        CommsBuilder {
            zmq_context,
            control_service_config: None,
            peer_conn_config: None,
            omp_config: None,
            peer_storage_factory: None,
            routes: None,
            node_identity: None,
        }
    }

    /// Stores the route table, overwriting any previous one.
    pub fn with_routes(self, routes: CommsRoutes) -> (r: CommsBuilder)
        ensures
            r.routes == Some(routes),
            r.node_identity == self.node_identity,
            r.control_service_config == self.control_service_config,
            r.omp_config == self.omp_config,
            r.peer_conn_config == self.peer_conn_config,
            (r.peer_storage_factory is Some) == (self.peer_storage_factory is Some),
    {
        let mut this = self;
        this.routes = Some(routes);
        this
    }

    /// Stores the peer storage factory, overwriting any previous one. The
    /// factory is invoked once at build time to obtain the backing store.
    pub fn with_peer_storage<F: Factory + 'static>(self, factory: F) -> (r: CommsBuilder)
        ensures
            r.peer_storage_factory is Some,
            r.routes == self.routes,
            r.node_identity == self.node_identity,
            r.control_service_config == self.control_service_config,
            r.omp_config == self.omp_config,
            r.peer_conn_config == self.peer_conn_config,
    {
        let mut this = self;
        this.peer_storage_factory = Some(Box::new(factory));
        this
    }

    /// Stores the control service configuration, overwriting any previous
    /// one; a node built without one has no listener for inbound peer
    /// connections.
    pub fn configure_control_service(self, config: ControlServiceConfig) -> (r: CommsBuilder)
        ensures
            r.control_service_config == Some(config),
            r.routes == self.routes,
            r.node_identity == self.node_identity,
            r.omp_config == self.omp_config,
            r.peer_conn_config == self.peer_conn_config,
            (r.peer_storage_factory is Some) == (self.peer_storage_factory is Some),
    {
        let mut this = self;
        this.control_service_config = Some(config);
        this
    }

    /// Stores the outbound message pool configuration, overwriting any
    /// previous one.
    pub fn configure_outbound_message_pool(self, config: OutboundMessagePoolConfig) -> (r:
        CommsBuilder)
        ensures
            r.omp_config == Some(config),
            r.routes == self.routes,
            r.node_identity == self.node_identity,
            r.control_service_config == self.control_service_config,
            r.peer_conn_config == self.peer_conn_config,
            (r.peer_storage_factory is Some) == (self.peer_storage_factory is Some),
    {
        let mut this = self;
        this.omp_config = Some(config);
        this
    }

    /// Stores the node identity, overwriting any previous one.
    pub fn with_node_identity(self, node_identity: NodeIdentity) -> (r: CommsBuilder)
        ensures
            r.node_identity == Some(node_identity),
            r.routes == self.routes,
            r.control_service_config == self.control_service_config,
            r.omp_config == self.omp_config,
            r.peer_conn_config == self.peer_conn_config,
            (r.peer_storage_factory is Some) == (self.peer_storage_factory is Some),
    {
        let mut this = self;
        this.node_identity = Some(node_identity);
        this
    }

    /// Stores the peer connection configuration, overwriting any previous
    /// one.
    pub fn configure_peer_connections(self, config: PeerConnectionConfig) -> (r: CommsBuilder)
        ensures
            r.peer_conn_config == Some(config),
            r.routes == self.routes,
            r.node_identity == self.node_identity,
            r.control_service_config == self.control_service_config,
            r.omp_config == self.omp_config,
            (r.peer_storage_factory is Some) == (self.peer_storage_factory is Some),
    {
        let mut this = self;
        this.peer_conn_config = Some(config);
        this
    }

    /// Opens the peer directory, invoking the storage factory if one was
    /// supplied.
    fn make_peer_manager(&mut self) -> (r: Result<Arc<PeerManager>, CommsBuilderError>)
        ensures
            r matches Ok(pm) && ((pm.storage is Some) == (old(self).peer_storage_factory
                is Some)),
            final(self).peer_storage_factory is None,
            final(self).routes == old(self).routes,
            final(self).node_identity == old(self).node_identity,
            final(self).control_service_config == old(self).control_service_config,
            final(self).omp_config == old(self).omp_config,
            final(self).peer_conn_config == old(self).peer_conn_config,
    {
        let storage: Option<CommsDataStore> = match self.peer_storage_factory.take() {
            Some(factory) => Some(factory.make()),
            None => None,
        };
        match PeerManager::new(storage) {
            Ok(peer_manager) => Ok(Arc::new(peer_manager)),
            Err(e) => Err(CommsBuilderError::PeerManagerError(e)),
        }
    }

    /// Constructs the control service if a configuration was supplied.
    fn make_control_service(&mut self, node_identity: Arc<NodeIdentity>) -> (r: Option<
        ControlService,
    >)
        ensures
            final(self).control_service_config is None,
            final(self).routes == old(self).routes,
            final(self).node_identity == old(self).node_identity,
            final(self).omp_config == old(self).omp_config,
            final(self).peer_conn_config == old(self).peer_conn_config,
            match r {
                Some(cs) => old(self).control_service_config matches Some(cfg) && cs.config == cfg
                    && cs.identity == node_identity,
                None => old(self).control_service_config is None,
            },
    {
        match self.control_service_config.take() {
            Some(config) => Some(ControlService::new(self.zmq_context.clone(), node_identity, config)),
            None => None,
        }
    }

    /// Constructs the connection manager and wraps it in a shared handle,
    /// since both the control service and the outbound path will hold
    /// references to it.
    fn make_connection_manager(
        &mut self,
        node_identity: Arc<NodeIdentity>,
        peer_manager: Arc<PeerManager>,
        config: PeerConnectionConfig,
    ) -> (r: Arc<ConnectionManager>)
        ensures
            r.identity == node_identity,
            r.peer_manager == peer_manager,
            r.config == config,
            final(self).routes == old(self).routes,
            final(self).node_identity == old(self).node_identity,
            final(self).control_service_config == old(self).control_service_config,
            final(self).omp_config == old(self).omp_config,
            final(self).peer_conn_config == old(self).peer_conn_config,
    {
        Arc::new(
            ConnectionManager::new(self.zmq_context.clone(), node_identity, peer_manager, config),
        )
    }

    /// Resolves the peer connection configuration: a supplied non-default
    /// message sink address is preserved exactly; otherwise the sink is set
    /// to a freshly generated address distinct from every route address.
    fn make_peer_connection_config(&mut self) -> (r: PeerConnectionConfig)
        requires
            old(self).wf(),
        ensures
            final(self).peer_conn_config is None,
            final(self).routes == old(self).routes,
            final(self).node_identity == old(self).node_identity,
            final(self).control_service_config == old(self).control_service_config,
            final(self).omp_config == old(self).omp_config,
            !r.message_sink_address.spec_is_default(),
            old(self).peer_conn_config matches Some(c) ==> (!c.message_sink_address.spec_is_default()
                ==> r == c),
            (old(self).peer_conn_config is None
                || old(self).peer_conn_config->Some_0.message_sink_address.spec_is_default()) ==> (
            old(self).routes matches Some(rt) ==> (forall|i: int|
                0 <= i < rt@.len() ==> r.message_sink_address != (#[trigger] rt@[i]).address)),
    {
        let mut config = match self.peer_conn_config.take() {
            Some(c) => c,
            None => PeerConnectionConfig::default(),
        };
        if config.message_sink_address.is_default() {
            let exclusions: Vec<InprocAddress> = match &self.routes {
                Some(rt) => rt.addresses(),
                None => Vec::new(),
            };
            let fresh = InprocAddress::random_excluding(&exclusions);
            proof {
                match &self.routes {
                    Some(rt) => {
                        assert forall|i: int| 0 <= i < rt@.len() implies fresh != (
                        #[trigger] rt@[i]).address by {
                            assert(exclusions@[i] == rt@[i].address);
                        }
                    },
                    None => {},
                }
            }
            config.message_sink_address = fresh;
        }
        config
    }

    /// Moves the node identity out of the builder into a shared handle;
    /// fails if none was supplied.
    fn make_node_identity(&mut self) -> (r: Result<Arc<NodeIdentity>, CommsBuilderError>)
        ensures
            match r {
                Ok(id) => old(self).node_identity matches Some(n) && id == n,
                Err(e) => old(self).node_identity is None && e
                    == CommsBuilderError::NodeIdentityNotSet,
            },
            final(self).node_identity is None,
            final(self).routes == old(self).routes,
            final(self).control_service_config == old(self).control_service_config,
            final(self).omp_config == old(self).omp_config,
            final(self).peer_conn_config == old(self).peer_conn_config,
    {
        match self.node_identity.take() {
            Some(node_identity) => Ok(Arc::new(node_identity)),
            None => Err(CommsBuilderError::NodeIdentityNotSet),
        }
    }

    /// Constructs the outbound sender bound to the outbound sink address.
    fn make_outbound_message_service(
        &self,
        node_identity: Arc<NodeIdentity>,
        message_sink_address: InprocAddress,
        peer_manager: Arc<PeerManager>,
    ) -> (r: Result<Arc<OutboundMessageService>, CommsBuilderError>)
        ensures
            r matches Ok(oms) && oms.identity == node_identity && oms.message_sink_address
                == message_sink_address && oms.peer_manager == peer_manager,
    {
        match OutboundMessageService::new(
            self.zmq_context.clone(),
            node_identity,
            message_sink_address,
            peer_manager,
        ) {
            Ok(oms) => Ok(Arc::new(oms)),
            Err(e) => Err(CommsBuilderError::OutboundMessageServiceError(e)),
        }
    }

    /// Constructs the outbound message pool; the sink address serves both as
    /// its intake and as its self-requeue address.
    fn make_outbound_message_pool(
        &mut self,
        message_sink_address: InprocAddress,
        peer_manager: Arc<PeerManager>,
        connection_manager: Arc<ConnectionManager>,
    ) -> (r: Result<OutboundMessagePool, CommsBuilderError>)
        ensures
            r matches Ok(p) && p.intake_address == message_sink_address && p.requeue_address
                == message_sink_address && p.peer_manager == peer_manager && p.connection_manager
                == connection_manager && (match old(
                self,
            ).omp_config {
                Some(cfg) => p.config == cfg,
                None => p.config == OutboundMessagePoolConfig::spec_default(),
            }),
            final(self).omp_config is None,
            final(self).routes == old(self).routes,
            final(self).node_identity == old(self).node_identity,
            final(self).control_service_config == old(self).control_service_config,
            final(self).peer_conn_config == old(self).peer_conn_config,
    {
        let config = match self.omp_config.take() {
            Some(cfg) => cfg,
            None => OutboundMessagePoolConfig::default(),
        };
        match OutboundMessagePool::new(
            config,
            self.zmq_context.clone(),
            // the pool can requeue back onto itself
            message_sink_address,
            message_sink_address,
            peer_manager,
            connection_manager,
        ) {
            Ok(pool) => Ok(pool),
            Err(e) => Err(CommsBuilderError::OutboundMessagePoolError(e)),
        }
    }

    /// Constructs the inbound dispatch service reading from the resolved
    /// message sink address.
    fn make_inbound_message_service(
        &mut self,
        node_identity: Arc<NodeIdentity>,
        message_sink_address: InprocAddress,
        inbound_message_broker: Arc<InboundMessageBroker>,
        oms: Arc<OutboundMessageService>,
        peer_manager: Arc<PeerManager>,
    ) -> (r: Result<InboundMessageService, CommsBuilderError>)
        ensures
            r matches Ok(s) && s.identity == node_identity && s.message_sink_address
                == message_sink_address && s.broker == inbound_message_broker
                && s.outbound_message_service == oms && s.peer_manager == peer_manager,
            final(self).routes == old(self).routes,
            final(self).node_identity == old(self).node_identity,
            final(self).control_service_config == old(self).control_service_config,
            final(self).omp_config == old(self).omp_config,
            final(self).peer_conn_config == old(self).peer_conn_config,
    {
        match InboundMessageService::new(
            self.zmq_context.clone(),
            node_identity,
            message_sink_address,
            Arc::new(construct_comms_msg_dispatcher()),
            inbound_message_broker,
            oms,
            peer_manager,
        ) {
            Ok(s) => Ok(s),
            Err(e) => Err(CommsBuilderError::InboundMessageServiceError(e)),
        }
    }

    /// Folds the route table into a fresh broker, one route per entry.
    fn make_inbound_message_broker(&mut self, routes: &CommsRoutes) -> (r: Arc<
        InboundMessageBroker,
    >)
        ensures
            r.routes@ == routes@,
            final(self).routes == old(self).routes,
            final(self).node_identity == old(self).node_identity,
            final(self).control_service_config == old(self).control_service_config,
            final(self).omp_config == old(self).omp_config,
            final(self).peer_conn_config == old(self).peer_conn_config,
    {
        let entries = routes.inner();
        let mut broker = InboundMessageBroker::new(self.zmq_context.clone());
        let mut i: usize = 0;
        while i < entries.len()
            invariant
                i <= entries@.len(),
                entries@ == routes@,
                broker.routes@ == routes@.subrange(0, i as int),
            decreases entries@.len() - i,
        {
            broker = broker.route(entries[i].message_type.clone(), entries[i].address);
            proof {
                assert(broker.routes@ =~= routes@.subrange(0, i as int + 1));
            }
            i += 1;
        }
        proof {
            assert(broker.routes@ =~= routes@);
        }
        Arc::new(broker)
    }

    /// Validates the mandatory slots and constructs every service in
    /// dependency order: peer directory, optional control service, shared
    /// connection manager, outbound sender and pool wired through one fresh
    /// outbound sink address, and the inbound path wired through the resolved
    /// peer-connection sink address. Fails fast on the first error.
    pub fn build(self) -> (r: Result<CommsServiceContainer, CommsBuilderError>)
        requires
            self.wf(),
        ensures
            self.node_identity is None ==> (r matches Err(e) && e
                == CommsBuilderError::NodeIdentityNotSet),
            self.node_identity is Some && self.routes is None ==> (r matches Err(e) && e
                == CommsBuilderError::RoutesNotDefined),
            self.node_identity is Some && self.routes is Some ==> r is Ok,
            r matches Ok(c) ==> {
                &&& c.wf()
                &&& c.routes == self.routes->Some_0
                &&& (c.control_service is Some) == (self.control_service_config is Some)
                &&& (self.control_service_config matches Some(cfg)
                    ==> c.control_service->Some_0.config == cfg
                    && c.control_service->Some_0.identity == self.node_identity->Some_0)
                &&& c.connection_manager.identity == self.node_identity->Some_0
                &&& c.outbound_message_service.identity == self.node_identity->Some_0
                &&& c.inbound_message_service.identity == self.node_identity->Some_0
                &&& (match self.omp_config {
                    Some(cfg) => c.outbound_message_pool.config == cfg,
                    None => c.outbound_message_pool.config
                        == OutboundMessagePoolConfig::spec_default(),
                })
                &&& (self.peer_conn_config matches Some(pc) ==> (
                !pc.message_sink_address.spec_is_default() ==> c.connection_manager.config == pc
                    && c.inbound_message_service.message_sink_address
                    == pc.message_sink_address))
                &&& ((self.peer_conn_config is None
                    || self.peer_conn_config->Some_0.message_sink_address.spec_is_default())
                    ==> (forall|i: int|
                        0 <= i < c.routes@.len()
                            ==> c.connection_manager.config.message_sink_address != (
                        #[trigger] c.routes@[i]).address))
            },
    {
        let mut this = self;
        let node_identity = match this.make_node_identity() {
            Ok(v) => v,
            Err(e) => {
                return Err(e);
            },
        };

        let peer_manager = match this.make_peer_manager() {
            Ok(v) => v,
            Err(e) => {
                return Err(e);
            },
        };

        let peer_conn_config = this.make_peer_connection_config();

        let control_service = this.make_control_service(arc_clone(&node_identity));

        let connection_manager = this.make_connection_manager(
            arc_clone(&node_identity),
            arc_clone(&peer_manager),
            peer_conn_config.clone(),
        );

        let mut exclusions: Vec<InprocAddress> = match &this.routes {
            Some(rt) => rt.addresses(),
            None => Vec::new(),
        };
        exclusions.push(peer_conn_config.message_sink_address);
        let outbound_message_sink_address = InprocAddress::random_excluding(&exclusions);
        proof {
            assert(outbound_message_sink_address != exclusions@[exclusions@.len() - 1]);
            match &this.routes {
                Some(rt) => {
                    assert forall|i: int| 0 <= i < rt@.len() implies outbound_message_sink_address
                        != (#[trigger] rt@[i]).address by {
                        assert(exclusions@[i] == rt@[i].address);
                    }
                },
                None => {},
            }
        }

        let outbound_message_service = match this.make_outbound_message_service(
            arc_clone(&node_identity),
            outbound_message_sink_address,
            arc_clone(&peer_manager),
        ) {
            Ok(v) => v,
            Err(e) => {
                return Err(e);
            },
        };

        let outbound_message_pool = match this.make_outbound_message_pool(
            outbound_message_sink_address,
            arc_clone(&peer_manager),
            arc_clone(&connection_manager),
        ) {
            Ok(v) => v,
            Err(e) => {
                return Err(e);
            },
        };

        let routes = match this.routes.take() {
            Some(rt) => rt,
            None => {
                return Err(CommsBuilderError::RoutesNotDefined);
            },
        };

        let inbound_message_broker = this.make_inbound_message_broker(&routes);

        let inbound_message_service = match this.make_inbound_message_service(
            node_identity,
            peer_conn_config.message_sink_address,
            arc_clone(&inbound_message_broker),
            arc_clone(&outbound_message_service),
            arc_clone(&peer_manager),
        ) {
            Ok(v) => v,
            Err(e) => {
                return Err(e);
            },
        };

        Ok(
            CommsServiceContainer {
                zmq_context: this.zmq_context,
                routes,
                control_service,
                inbound_message_service,
                connection_manager,
                outbound_message_pool,
                outbound_message_service,
            },
        )
    }
}

/// Failure while starting or running the node's services, or the aggregate
/// verdict of an unclean shutdown.
#[derive(Clone, Copy, PartialEq, Eq, Structural, Debug)]
pub enum CommsServicesError {
    ControlServiceError(ControlServiceError),
    ConnectionManagerError(ConnectionError),
    /// Comms services shut down uncleanly.
    UncleanShutdown,
    /// The message type was not registered.
    MessageTypeNotRegistered,
    ConnectorError(ConnectorError),
    InboundMessageBrokerError(BrokerError),
}

/// Constructed but not yet started services, wired to each other in
/// dependency order by `CommsBuilder::build`.
pub struct CommsServiceContainer {
    pub zmq_context: ZmqContext,
    pub routes: CommsRoutes,
    pub connection_manager: Arc<ConnectionManager>,
    pub control_service: Option<ControlService>,
    pub inbound_message_service: InboundMessageService,
    pub outbound_message_pool: OutboundMessagePool,
    pub outbound_message_service: Arc<OutboundMessageService>,
}

impl CommsServiceContainer {
    /// The wiring discipline every built container satisfies: the route table
    /// is well-formed; the inbound path and the connection manager agree on
    /// one non-default sink address; the outbound path reads and re-queues at
    /// one fresh sink address distinct from the inbound sink and from every
    /// route address; and the broker carries exactly the table's routes.
    pub open spec fn wf(self) -> bool {
        &&& self.routes.wf()
        &&& !self.inbound_message_service.message_sink_address.spec_is_default()
        &&& self.inbound_message_service.message_sink_address
            == self.connection_manager.config.message_sink_address
        &&& !self.outbound_message_service.message_sink_address.spec_is_default()
        &&& self.outbound_message_service.message_sink_address
            != self.inbound_message_service.message_sink_address
        &&& self.outbound_message_pool.intake_address
            == self.outbound_message_service.message_sink_address
        &&& self.outbound_message_pool.requeue_address
            == self.outbound_message_pool.intake_address
        &&& forall|i: int|
            0 <= i < self.routes@.len() ==> (#[trigger] self.routes@[i]).address
                != self.outbound_message_service.message_sink_address
        &&& self.inbound_message_service.broker.routes@ == self.routes@
        &&& self.inbound_message_service.outbound_message_service
            == self.outbound_message_service
        &&& self.outbound_message_service.peer_manager == self.connection_manager.peer_manager
        &&& self.outbound_message_pool.peer_manager == self.connection_manager.peer_manager
        &&& self.inbound_message_service.peer_manager == self.connection_manager.peer_manager
    }

    /// Starts the services in order: the control service first (if present),
    /// so that peers can connect before traffic arrives; then the inbound
    /// dispatcher; then the outbound pool. A control service failure aborts
    /// the sequence before anything else is started.
    pub fn start(self) -> (r: Result<CommsServices, CommsServicesError>)
        requires
            self.wf(),
        ensures
            r is Ok,
            r matches Ok(s) ==> {
                &&& s.wf()
                &&& s.routes == self.routes
                &&& s.outbound_message_service == self.outbound_message_service
                &&& s.connection_manager == self.connection_manager
                &&& (s.control_service_handle is Some) == (self.control_service is Some)
                &&& (s.control_service_handle matches Some(h) ==> h.connection_manager
                    == self.connection_manager)
            },
    {
        let mut control_service_handle: Option<ControlServiceHandle> = None;
        match self.control_service {
            Some(control_service) => {
                match control_service.serve(arc_clone(&self.connection_manager)) {
                    Ok(handle) => {
                        control_service_handle = Some(handle);
                    },
                    Err(e) => {
                        return Err(CommsServicesError::ControlServiceError(e));
                    },
                }
            },
            None => {},
        }

        let ims_handle = self.inbound_message_service.start();
        self.outbound_message_pool.start();

        Ok(
            CommsServices {
                zmq_context: self.zmq_context,
                outbound_message_service: self.outbound_message_service,
                routes: self.routes,
                connection_manager: self.connection_manager,
                control_service_handle,
                ims_handle,
            },
        )
    }
}

/// A running node: live handles plus the shared resources needed for
/// steady-state operations and shutdown. Shutting it down consumes it, so a
/// node cannot be stopped twice.
pub struct CommsServices {
    pub zmq_context: ZmqContext,
    pub outbound_message_service: Arc<OutboundMessageService>,
    pub routes: CommsRoutes,
    pub control_service_handle: Option<ControlServiceHandle>,
    pub ims_handle: ImsJoinHandle,
    pub connection_manager: Arc<ConnectionManager>,
}

/// Every aggregated shutdown outcome succeeded.
spec fn all_results_ok(results: Seq<Result<(), CommsServicesError>>) -> bool {
    forall|i: int| 0 <= i < results.len() ==> (#[trigger] results[i]) is Ok
}

/// An aggregate built from a prefix and the mapped connection outcomes is
/// clean exactly when the prefix was clean and every connection outcome was.
proof fn lemma_aggregate_ok(
    aggregated: Seq<Result<(), CommsServicesError>>,
    base: Seq<Result<(), CommsServicesError>>,
    conn: Seq<Result<(), ConnectionError>>,
    handle_ok: bool,
)
    requires
        all_results_ok(base) == handle_ok,
        aggregated.len() == base.len() + conn.len(),
        forall|k: int| 0 <= k < base.len() ==> aggregated[k] == base[k],
        forall|j: int|
            0 <= j < conn.len() ==> (((#[trigger] aggregated[base.len() + j]) is Ok) == (conn[j]
                is Ok)),
    ensures
        all_results_ok(aggregated) == (handle_ok && (forall|j: int|
            0 <= j < conn.len() ==> (#[trigger] conn[j]) is Ok)),
{
    if handle_ok && (forall|j: int| 0 <= j < conn.len() ==> (#[trigger] conn[j]) is Ok) {
        assert forall|k: int| 0 <= k < aggregated.len() implies (#[trigger] aggregated[k])
            is Ok by {
            if k < base.len() {
                assert(aggregated[k] == base[k]);
                assert(base[k] is Ok);
            } else {
                let j = k - base.len();
                assert(conn[j] is Ok);
                assert((aggregated[base.len() + j] is Ok) == (conn[j] is Ok));
            }
        }
    }
    if all_results_ok(aggregated) {
        assert forall|k: int| 0 <= k < base.len() implies (#[trigger] base[k]) is Ok by {
            assert(aggregated[k] == base[k]);
            assert(aggregated[k] is Ok);
        }
        assert forall|j: int| 0 <= j < conn.len() implies (#[trigger] conn[j]) is Ok by {
            assert(aggregated[base.len() + j] is Ok);
        }
    }
}

impl CommsServices {
    /// The part of the container's wiring discipline a running node still
    /// needs: a well-formed route table whose addresses are all distinct from
    /// the outbound sink.
    pub open spec fn wf(self) -> bool {
        &&& self.routes.wf()
        &&& !self.outbound_message_service.message_sink_address.spec_is_default()
        &&& forall|i: int|
            0 <= i < self.routes@.len() ==> (#[trigger] self.routes@[i]).address
                != self.outbound_message_service.message_sink_address
    }

    /// The shared outbound sender; safe to call any number of times.
    pub fn get_outbound_message_service(&self) -> (r: Arc<OutboundMessageService>)
        ensures
            r == self.outbound_message_service,
    {
        arc_clone(&self.outbound_message_service)
    }

    /// Opens a new connector consuming the traffic of `message_type`, bound
    /// to the address the route table registered for it; fails exactly when
    /// the message type is not registered.
    pub fn create_connector(&self, message_type: &String) -> (r: Result<
        DomainConnector,
        CommsServicesError,
    >)
        requires
            self.wf(),
        ensures
            match r {
                Ok(c) => self.routes.contains_key(message_type@) && c.address
                    == self.routes.address_of(message_type@),
                Err(e) => e == CommsServicesError::MessageTypeNotRegistered
                    && !self.routes.contains_key(message_type@),
            },
    {
        let address = match self.routes.get_address(message_type) {
            Some(a) => a,
            None => {
                return Err(CommsServicesError::MessageTypeNotRegistered);
            },
        };
        match DomainConnector::listen(&self.zmq_context, &address) {
            Ok(connector) => Ok(connector),
            Err(e) => Err(CommsServicesError::ConnectorError(e)),
        }
    }

    /// Law: two connectors opened for distinct registered message types
    /// consume from distinct internal addresses.
    pub proof fn lemma_distinct_connector_addresses(self, a: Seq<char>, b: Seq<char>)
        requires
            self.wf(),
            self.routes.contains_key(a),
            self.routes.contains_key(b),
            a != b,
        ensures
            self.routes.address_of(a) != self.routes.address_of(b),
    {
        self.routes.lemma_distinct_keys_distinct_addresses(a, b);
    }

    /// Stops every live service and aggregates the recorded outcomes into
    /// one verdict. The control service is stopped first and its outcome
    /// recorded; then the connection manager is stopped only if exclusive
    /// ownership of it can be reclaimed, recording each of its per-connection
    /// outcomes. When other holders remain, the manager's shutdown is
    /// skipped, deliberately best-effort: the skip is not counted against the
    /// verdict. The verdict is success exactly when every recorded outcome
    /// succeeded. Consumes the node, so a second shutdown is impossible.
    pub fn shutdown(self) -> (r: Result<(), CommsServicesError>)
        ensures
            r is Err ==> r->Err_0 == CommsServicesError::UncleanShutdown,
            ((self.control_service_handle matches Some(h) ==> h.shutdown_outcome is Ok) && (forall|
                i: int,
            |
                0 <= i < self.connection_manager.shutdown_results@.len() ==> (
                #[trigger] self.connection_manager.shutdown_results@[i]) is Ok)) ==> r is Ok,
            (self.control_service_handle matches Some(h) && h.shutdown_outcome is Err) ==> r
                is Err,
            r is Err ==> ((self.control_service_handle matches Some(h) && h.shutdown_outcome
                is Err) || (exists|i: int|
                0 <= i < self.connection_manager.shutdown_results@.len() && !((
                #[trigger] self.connection_manager.shutdown_results@[i]) is Ok))),
    {
        let ghost pre = self;
        let ghost handle_ok: bool = (pre.control_service_handle matches Some(h)
            ==> h.shutdown_outcome is Ok);
        let mut shutdown_results: Vec<Result<(), CommsServicesError>> = Vec::new();
        match self.control_service_handle {
            Some(handle) => {
                let res: Result<(), CommsServicesError> = match handle.shutdown() {
                    Ok(v) => Ok(v),
                    Err(e) => Err(CommsServicesError::ControlServiceError(e)),
                };
                shutdown_results.push(res);
                proof {
                    assert(shutdown_results@.len() == 1);
                    assert(shutdown_results@[0] == res);
                    assert(all_results_ok(shutdown_results@) == handle_ok);
                }
            },
            None => {
                proof {
                    assert(all_results_ok(shutdown_results@) == handle_ok);
                }
            },
        }
        let ghost base = shutdown_results@;

        match arc_try_unwrap(self.connection_manager) {
            Ok(connection_manager) => {
                let results = connection_manager.shutdown();
                let mut i: usize = 0;
                while i < results.len()
                    invariant
                        i <= results@.len(),
                        results@ == pre.connection_manager.shutdown_results@,
                        all_results_ok(base) == handle_ok,
                        shutdown_results@.len() == base.len() + i,
                        forall|k: int| 0 <= k < base.len() ==> shutdown_results@[k] == base[k],
                        forall|j: int|
                            0 <= j < i ==> (((#[trigger] shutdown_results@[base.len() + j]) is Ok)
                                == (results@[j] is Ok)),
                    decreases results@.len() - i,
                {
                    let res: Result<(), CommsServicesError> = match results[i] {
                        Ok(v) => Ok(v),
                        Err(e) => Err(CommsServicesError::ConnectionManagerError(e)),
                    };
                    shutdown_results.push(res);
                    i += 1;
                }
                proof {
                    lemma_aggregate_ok(shutdown_results@, base, results@, handle_ok);
                }
            },
            Err(_still_shared) => {
                // Exclusive ownership could not be reclaimed: another holder
                // still uses the connection manager, so stopping it is
                // skipped rather than treated as a failure.
            },
        }

        Self::check_clean_shutdown(shutdown_results)
    }

    /// One verdict from many shutdown results.
    pub fn check_clean_shutdown(results: Vec<Result<(), CommsServicesError>>) -> (r: Result<
        (),
        CommsServicesError,
    >)
        ensures
            (r is Ok) == (forall|i: int|
                0 <= i < results@.len() ==> (#[trigger] results@[i]) is Ok),
            r is Err ==> r->Err_0 == CommsServicesError::UncleanShutdown,
    {
        let mut has_error = false;
        let mut i: usize = 0;
        while i < results.len()
            invariant
                i <= results@.len(),
                has_error == !(forall|j: int|
                    0 <= j < i ==> (#[trigger] results@[j]) is Ok),
            decreases results@.len() - i,
        {
            if results[i].is_err() {
                has_error = true;
            }
            i += 1;
        }

        if has_error {
            Err(CommsServicesError::UncleanShutdown)
        } else {
            Ok(())
        }
    }
}

} // verus!
