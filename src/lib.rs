//! Trust core of a node's cryptography: a bounded cache of threshold
//! verification material behind a reader/writer lock, the facade that
//! derives the node's identity and resolves public keys through a registry,
//! the decision logic of a hardware-module signer session, and the check of
//! log-target filters used by the log-shipping configuration generator.
pub mod capabilities;
pub mod component;
pub mod filter;
pub mod hsm;
pub mod identity;
pub mod lockable;
pub mod registry;
pub mod store;
pub mod types;
