//! The system layer of a CosmWasm virtual machine: it runs a contract entry
//! point inside a transaction, turns the contract's response into events,
//! dispatches its submessages with their reply policies, answers queries and
//! guards the admin-only operations on contract metadata.
pub mod error;
pub mod types;
pub mod text;
pub mod events;
pub mod sanitize;
pub mod vm;
pub mod admin;
pub mod system;
pub mod query;
pub mod laws;
