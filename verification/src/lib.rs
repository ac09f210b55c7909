//! Core logic of a Tendermint-family node toolkit.
//!
//! The crate covers the p2p supervisor's pure protocol state machine and its
//! peer table, the light-client fork detector driven as a step machine, the
//! Merkle/SHA-256 header hashing it relies on, block validity rules, ABCI
//! request conversions, and light-client option validation.

pub mod abci;
pub mod block;
pub mod bytes;
pub mod encoding;
pub mod errors;
pub mod fork_detector;
pub mod hashing;
pub mod header;
pub mod id_map;
pub mod id_set;
pub mod node;
pub mod lifecycle;
pub mod light_block;
pub mod options;
pub mod peer_table;
pub mod size;
pub mod supervisor;
