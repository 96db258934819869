use vstd::prelude::*;

verus! {

use std::sync::Arc;
use crate::connection::{InprocAddress, ZmqContext};
use crate::connection_manager::ConnectionManager;
use crate::peer_manager::{NodeIdentity, PeerManager};

/// Failure on the outbound path, reported by the sender or the pool.
#[derive(Clone, Copy, PartialEq, Eq, Structural, Debug)]
pub struct OutboundError {}

/// Queues outgoing messages onto the outbound sink address, from where the
/// pool picks them up for delivery.
pub struct OutboundMessageService {
    pub zmq_context: ZmqContext,
    pub identity: Arc<NodeIdentity>,
    pub message_sink_address: InprocAddress,
    pub peer_manager: Arc<PeerManager>,
}

impl OutboundMessageService {
    /// Constructs the sender bound to the node's identity and the outbound
    /// sink address.
    pub fn new(
        zmq_context: ZmqContext,
        node_identity: Arc<NodeIdentity>,
        message_sink_address: InprocAddress,
        peer_manager: Arc<PeerManager>,
    ) -> (r: Result<OutboundMessageService, OutboundError>)
        ensures
            r matches Ok(s) && s.identity == node_identity && s.message_sink_address
                == message_sink_address && s.peer_manager == peer_manager,
    {
        Ok(
            OutboundMessageService {
                zmq_context,
                identity: node_identity,
                message_sink_address,
                peer_manager,
            },
        )
    }
}

/// Tuning for the outbound message pool.
#[derive(Clone, Copy, PartialEq, Eq, Structural, Debug)]
pub struct OutboundMessagePoolConfig {
    pub max_retries: u32,
}

impl OutboundMessagePoolConfig {
    /// The default tuning: up to ten delivery attempts per message.
    pub open spec fn spec_default() -> OutboundMessagePoolConfig {
        OutboundMessagePoolConfig { max_retries: 10 }
    }
}

impl Default for OutboundMessagePoolConfig {
    /// Retries a failed delivery up to ten times by default.
    fn default() -> (r: Self)
        ensures
            r == OutboundMessagePoolConfig::spec_default(),
    {
        OutboundMessagePoolConfig { max_retries: 10 }
    }
}

/// Delivers queued outbound messages to peers, re-queuing a failed message to
/// its own intake address for another attempt.
pub struct OutboundMessagePool {
    pub config: OutboundMessagePoolConfig,
    pub zmq_context: ZmqContext,
    pub intake_address: InprocAddress,
    pub requeue_address: InprocAddress,
    pub peer_manager: Arc<PeerManager>,
    pub connection_manager: Arc<ConnectionManager>,
}

impl OutboundMessagePool {
    /// Constructs the pool reading from `intake_address` and re-queuing
    /// undeliverable messages to `requeue_address`.
    pub fn new(
        config: OutboundMessagePoolConfig,
        zmq_context: ZmqContext,
        intake_address: InprocAddress,
        requeue_address: InprocAddress,
        peer_manager: Arc<PeerManager>,
        connection_manager: Arc<ConnectionManager>,
    ) -> (r: Result<OutboundMessagePool, OutboundError>)
        ensures
            r matches Ok(p) && p.config == config && p.intake_address == intake_address
                && p.requeue_address == requeue_address && p.peer_manager == peer_manager
                && p.connection_manager == connection_manager,
    {
        Ok(
            OutboundMessagePool {
                config,
                zmq_context,
                intake_address,
                requeue_address,
                peer_manager,
                connection_manager,
            },
        )
    }

    /// Starts background delivery; the pool and the references it holds move
    /// into its background execution context.
    pub fn start(self) {
    }
}

} // verus!
