//! The coordination layer: caller requests, gossip messages, and the
//! protocol rounds that connect them.

pub mod command;
pub mod participant;
pub mod service;
pub mod worker;
