//! Off-chain operator core for a zero-knowledge light-client bridge.
//!
//! The operator watches a settlement contract's finalized head, decides when a
//! new consensus update is worth proving, hands a canonical claim to one of
//! three proving backends (local, remote polling queue, or proving
//! marketplace), and relays the resulting receipt back to the contract.
//!
//! This crate holds the decision logic of that pipeline: what to prove, how
//! each backend's session advances, and how a relay outcome is judged. The
//! external collaborators (consensus client, proving services, chain RPC) are
//! driven by the surrounding binary, which feeds their answers to the state
//! machines defined here as plain values.

pub mod types;

pub mod commitment;

pub mod abi;

pub mod config;

pub mod decider;

pub mod backend;

pub mod remote;

pub mod market;

pub mod relay;

pub mod operator;

