//! Validator discovery and the request surface of the gossip substrate.

pub mod address;
pub mod cache;
pub mod crypto;
pub mod identity;
pub mod record;
pub mod service;
pub mod topic;
