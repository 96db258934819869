use vstd::prelude::*;

verus! {

use std::sync::Arc;
use crate::connection::ZmqContext;
use crate::connection_manager::ConnectionManager;
use crate::peer_manager::{NetAddress, NodeIdentity};

/// Failure reported by the control service while serving or stopping.
#[derive(Clone, Copy, PartialEq, Eq, Structural, Debug)]
pub struct ControlServiceError {}

/// Configuration for the control service's listener.
pub struct ControlServiceConfig {
    pub listener_address: NetAddress,
}

impl Default for ControlServiceConfig {
    /// Listens on every local interface at an unspecified port by default.
    fn default() -> (r: Self)
        ensures
            r.listener_address.value@ == "0.0.0.0:0"@,
    {
        ControlServiceConfig { listener_address: NetAddress { value: "0.0.0.0:0".to_owned() } }
    }
}

/// The control service: once served, it accepts inbound peer connections on
/// behalf of the node. Its wire protocol is out of scope here.
pub struct ControlService {
    pub zmq_context: ZmqContext,
    pub identity: Arc<NodeIdentity>,
    pub config: ControlServiceConfig,
}

impl ControlService {
    /// Constructs the control service bound to the node's identity and the
    /// given listener configuration.
    pub fn new(
        zmq_context: ZmqContext,
        node_identity: Arc<NodeIdentity>,
        config: ControlServiceConfig,
    ) -> (r: ControlService)
        ensures
            r.identity == node_identity,
            r.config == config,
    {
        ControlService { zmq_context, identity: node_identity, config }
    }

    /// Starts accepting inbound peer connections. The returned live handle
    /// holds a reference to the shared connection manager for as long as it
    /// serves. Nothing is promised of the outcome the handle will report when
    /// stopped: that is the service's own affair.
    pub fn serve(self, connection_manager: Arc<ConnectionManager>) -> (r: Result<
        ControlServiceHandle,
        ControlServiceError,
    >)
        ensures
            r matches Ok(h) && h.connection_manager == connection_manager,
    {
        Ok(ControlServiceHandle { connection_manager, shutdown_outcome: Ok(()) })
    }
}

/// Live handle to a serving control service.
pub struct ControlServiceHandle {
    pub connection_manager: Arc<ConnectionManager>,
    /// The outcome the control service will report when asked to stop;
    /// determined by the service's own protocol, unconstrained at this layer.
    pub shutdown_outcome: Result<(), ControlServiceError>,
}

impl ControlServiceHandle {
    /// Stops accepting connections, releases the handle's reference to the
    /// shared connection manager, and reports the service's stop outcome.
    pub fn shutdown(self) -> (r: Result<(), ControlServiceError>)
        ensures
            r == self.shutdown_outcome,
    {
        self.shutdown_outcome
    }
}

} // verus!
