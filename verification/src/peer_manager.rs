use vstd::prelude::*;

verus! {

use crate::connection::random_u64;

/// The node's public key. Modelled here as an opaque token; key material and
/// signature checking belong to the cryptographic layer.
pub struct CommsPublicKey {
    pub key: u64,
}

/// A network-reachable address, as advertised to peers.
pub struct NetAddress {
    pub value: String,
}

/// The node's own identity: its public key plus the network address it
/// advertises for its control service.
pub struct NodeIdentity {
    pub public_key: CommsPublicKey,
    pub control_service_address: NetAddress,
}

impl NodeIdentity {
    /// A throwaway identity with a random public key, bound to the given
    /// address or to an unspecified local port.
    pub fn random_for_test(address: Option<NetAddress>) -> (r: NodeIdentity)
        ensures
            address matches Some(a) ==> r.control_service_address == a,
            address is None ==> r.control_service_address.value@ == "127.0.0.1:0"@,
    {
        let control_service_address = match address {
            Some(a) => a,
            None => NetAddress { value: "127.0.0.1:0".to_owned() },
        };
        NodeIdentity { public_key: CommsPublicKey { key: random_u64() }, control_service_address }
    }
}

/// Backing store for peer records; its contents are the peer directory's own
/// concern and opaque at this layer.
pub struct CommsDataStore {}

/// Supplies the peer directory's backing store; implemented by the library
/// user when peers should be persisted.
pub trait Factory {
    fn make(&self) -> CommsDataStore;
}

/// Failure while opening the peer directory.
#[derive(Clone, Copy, PartialEq, Eq, Structural, Debug)]
pub struct PeerManagerError {}

/// Directory of known peers, optionally backed by a store. Shared read-only by
/// several services; peer storage and lookup are out of scope here.
pub struct PeerManager {
    pub storage: Option<CommsDataStore>,
}

impl PeerManager {
    /// Opens the peer directory over the optional backing store.
    pub fn new(storage: Option<CommsDataStore>) -> (r: Result<PeerManager, PeerManagerError>)
        ensures
            r matches Ok(pm) && pm.storage == storage,
    {
        Ok(PeerManager { storage })
    }
}

} // verus!
