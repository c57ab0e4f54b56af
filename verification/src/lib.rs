//! Threshold-signing account recovery: key generation, signer nodes and the
//! leader that collects a quorum of partial signatures.
//!
//! The authority to sign is split over the nodes of a cluster. A client proves
//! who it is with an identity assertion; the leader sends the work to every
//! signer node; each node judges the assertion for itself before it signs
//! with its share of the key; the leader verifies the shares that arrive and,
//! with a quorum of them, combines the cluster's signature.

pub mod cache;
pub mod commands;
pub mod crypto;
pub mod gcp;
pub mod guarantees;
pub mod keys;
pub mod leader;
pub mod outcome;
pub mod quorum;
pub mod relay;
pub mod request;
pub mod signer;

pub use keys::generate;
