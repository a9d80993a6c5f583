//! Verified core of a relay that watches the World ID identity manager on
//! layer 1 for new Merkle roots and propagates them to bridged World ID
//! contracts on other chains.
//!
//! The library holds the decisions of the relay: configuration defaults, the
//! requests handed to the tx-sitter, the calldata of the contract calls, and the
//! state machines that drive the root listener and each state bridge. Network
//! I/O is done by the caller, which performs each returned action and hands the
//! outcome back as an event.

pub mod abi;
pub mod config;
pub mod endpoint;
pub mod laws;
pub mod primitives;
pub mod relay;
pub mod state_bridge;
