//! A verified transaction pipeline for an actor-based chain: build a chain
//! message from typed intent, derive its content-addressed identifier,
//! sign that identifier with a held key, wrap message and signature into a
//! submittable envelope, and interpret the outcome of pushing it into a
//! remote transaction pool — with typed failure categories throughout.
//!
//! The pipeline holds no state across calls: keys and sequence numbers are
//! supplied per call, and nothing is persisted or retried internally.

pub mod actor;
pub mod address;
pub mod error;
pub mod ident;
pub mod keys;
pub mod message;
pub mod miner;
pub mod signer;
pub mod submit;
pub mod token;
