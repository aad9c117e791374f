//! Core of a decentralized secure messaging mesh: the binary frame codec,
//! the message envelope, the node's identity, the deduplication cache, the
//! peer table and the mesh engine's decisions, each with a machine-checked
//! contract.
//!
//! The library touches no socket, file or terminal. Those belong to the
//! program around it, which hands it events and carries out the actions
//! that it returns.

pub mod buffer;
pub mod checksum;
pub mod clock;
pub mod codec;
pub mod dedup;
pub mod engine;
pub mod error;
pub mod frame;
pub mod handlers;
pub mod history;
pub mod identity;
pub mod messages;
pub mod metrics;
pub mod peers;
pub mod remote;
pub mod router;
pub mod transport;
