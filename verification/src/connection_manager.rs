use vstd::prelude::*;

verus! {

use std::sync::Arc;
use crate::connection::{ConnectionError, InprocAddress, ZmqContext};
use crate::peer_manager::{NodeIdentity, PeerManager};

/// Configuration for peer connections. The message sink address is the
/// internal rendezvous where the connection manager deposits inbound wire
/// data; if it is left at the default, the builder resolves it to a freshly
/// generated address at build time.
#[derive(Clone, Copy, PartialEq, Eq, Structural, Debug)]
pub struct PeerConnectionConfig {
    pub message_sink_address: InprocAddress,
}

impl Default for PeerConnectionConfig {
    /// Starts with the reserved default sink address.
    fn default() -> (r: Self)
        ensures
            r.message_sink_address.spec_is_default(),
    {
        PeerConnectionConfig { message_sink_address: InprocAddress { token: 0 } }
    }
}

/// Tracks and manages established peer connections. Shared between the
/// control service and the outbound path; connection establishment and
/// pooling are its own concern and out of scope here.
pub struct ConnectionManager {
    pub zmq_context: ZmqContext,
    pub identity: Arc<NodeIdentity>,
    pub peer_manager: Arc<PeerManager>,
    pub config: PeerConnectionConfig,
    /// The outcome of stopping each connection this manager established, in
    /// the order they will be reported at shutdown; accumulated by the
    /// manager's own connection logic, unconstrained at this layer.
    pub shutdown_results: Vec<Result<(), ConnectionError>>,
}

impl ConnectionManager {
    /// Constructs the connection manager over the node's identity, the peer
    /// directory and the resolved peer-connection configuration.
    pub fn new(
        zmq_context: ZmqContext,
        node_identity: Arc<NodeIdentity>,
        peer_manager: Arc<PeerManager>,
        config: PeerConnectionConfig,
    ) -> (r: ConnectionManager)
        ensures
            r.identity == node_identity,
            r.peer_manager == peer_manager,
            r.config == config,
    {
        ConnectionManager {
            zmq_context,
            identity: node_identity,
            peer_manager,
            config,
            shutdown_results: Vec::new(),
        }
    }

    /// Terminates every connection this manager established and reports each
    /// outcome; it may report several independent failures.
    pub fn shutdown(self) -> (r: Vec<Result<(), ConnectionError>>)
        ensures
            r@ == self.shutdown_results@,
    {
        self.shutdown_results
    }
}

} // verus!
