//! A small proof-of-work ledger and the decisions of the node that runs it.

pub mod block;
pub mod blockchain;
pub mod clock;
pub mod crypto;
pub mod error;
pub mod laws;
pub mod meaning;
pub mod network;
pub mod node;
pub mod operations;
pub mod provenance;
pub mod text;
pub mod transaction;
pub mod wallet;
