use vstd::prelude::*;

verus! {

use std::sync::Arc;
use crate::connection::{ConnectionError, InprocAddress, ZmqContext};
use crate::outbound::OutboundMessageService;
use crate::peer_manager::{NodeIdentity, PeerManager};
use crate::routes::RouteEntry;

/// Failure while registering or resolving a route inside the broker.
#[derive(Clone, Copy, PartialEq, Eq, Structural, Debug)]
pub struct BrokerError {}

/// Classifies inbound messages by type and forwards each to the internal
/// address registered for that type.
pub struct InboundMessageBroker {
    pub zmq_context: ZmqContext,
    pub routes: Vec<RouteEntry>,
}

impl InboundMessageBroker {
    /// An empty broker with no routes.
    pub fn new(zmq_context: ZmqContext) -> (r: InboundMessageBroker)
        ensures
            r.routes@.len() == 0,
    {
        InboundMessageBroker { zmq_context, routes: Vec::new() }
    }

    /// Adds one route, builder style.
    pub fn route(self, message_type: String, address: InprocAddress) -> (r: InboundMessageBroker)
        ensures
            r.routes@ == self.routes@.push((RouteEntry { message_type, address })),
    {
        let mut routes = self.routes;
        routes.push(RouteEntry { message_type, address });
        InboundMessageBroker { zmq_context: self.zmq_context, routes }
    }
}

/// Dispatch table for comms-level message handling; opaque at this layer.
pub struct CommsMessageDispatcher {}

/// The standard dispatcher for comms-level messages.
pub fn construct_comms_msg_dispatcher() -> CommsMessageDispatcher {
    CommsMessageDispatcher {}
}

/// Join handle for the background inbound dispatch task; stands for its
/// eventual termination result.
pub struct ImsJoinHandle {}

/// Receives raw inbound wire data at the message sink address, decodes it and
/// dispatches it through the broker; may send replies through the outbound
/// sender.
pub struct InboundMessageService {
    pub zmq_context: ZmqContext,
    pub identity: Arc<NodeIdentity>,
    pub message_sink_address: InprocAddress,
    pub dispatcher: Arc<CommsMessageDispatcher>,
    pub broker: Arc<InboundMessageBroker>,
    pub outbound_message_service: Arc<OutboundMessageService>,
    pub peer_manager: Arc<PeerManager>,
}

impl InboundMessageService {
    /// Constructs the inbound dispatch service reading from
    /// `message_sink_address`, the rendezvous shared with the connection
    /// manager.
    pub fn new(
        zmq_context: ZmqContext,
        node_identity: Arc<NodeIdentity>,
        message_sink_address: InprocAddress,
        dispatcher: Arc<CommsMessageDispatcher>,
        broker: Arc<InboundMessageBroker>,
        outbound_message_service: Arc<OutboundMessageService>,
        peer_manager: Arc<PeerManager>,
    ) -> (r: Result<InboundMessageService, ConnectionError>)
        ensures
            r matches Ok(s) && s.identity == node_identity && s.message_sink_address
                == message_sink_address && s.broker == broker && s.outbound_message_service
                == outbound_message_service && s.peer_manager == peer_manager,
    {
        Ok(
            InboundMessageService {
                zmq_context,
                identity: node_identity,
                message_sink_address,
                dispatcher,
                broker,
                outbound_message_service,
                peer_manager,
            },
        )
    }

    /// Starts background dispatch and returns the join handle standing for
    /// its eventual termination result.
    pub fn start(self) -> (r: ImsJoinHandle) {
        ImsJoinHandle {}
    }
}

} // verus!
