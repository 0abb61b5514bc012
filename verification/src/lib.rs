//! Coordination logic for validators that jointly hold a threshold signing key.
//!
//! The crate has three layers. [`network`] maps validator identities to
//! network peers and describes the requests a node can make of the gossip
//! substrate. [`validator`] sequences key generation and signing rounds and
//! reconciles them with caller requests. [`das`] describes the
//! data-availability endpoint, and [`looper`] the loop that has its answers
//! signed and submitted to the chain through the calls of [`chain`].

pub mod bytes;
pub mod chain;
pub mod das;
pub mod exchange;
pub mod looper;
pub mod network;
pub mod scale;
pub mod validator;
