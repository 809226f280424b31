//! Cross-chain packet host and versioned module deployment protocol.
//!
//! The library models the host side of an asynchronous action-relay channel:
//! inbound packets are decoded into actions, resolved against the owning
//! tenant's proxy, dispatched as correlated sub-calls, and acknowledged in the
//! same call; a deployer publishes module artifacts and registers each
//! (module id, version) pair at most once.

pub mod action;
pub mod address;
pub mod deploy;
pub mod error;
pub mod factory;
pub mod host;
pub mod msg;
pub mod packet;
pub mod version;
