//! Composition root for a peer-to-peer messaging node: a builder that
//! validates configuration and constructs the constituent services in
//! dependency order, a container that starts them, and a running handle that
//! exposes steady-state operations and graceful shutdown.

pub mod builder;
pub mod connection;
pub mod connection_manager;
pub mod control_service;
pub mod inbound;
pub mod outbound;
pub mod peer_manager;
pub mod routes;
