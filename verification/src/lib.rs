//! A typed registry for blockchain transaction messages.
//!
//! A transaction carries a list of opaque envelopes, each a pair of a
//! namespaced type identifier string and a raw byte payload.  This crate
//! lets application code move between that wire representation ([`Msg`])
//! and strongly typed message structures: every registered message type
//! carries a fixed identifier and a byte codec, and the generic
//! [`MsgType`] operations convert in both directions, reporting a
//! mismatched identifier or a malformed payload as a typed error.

pub mod bank;
pub mod base;
pub mod distribution;
pub mod error;
pub mod msg;
pub mod registry;
pub mod staking;
pub mod wire;

pub use error::Error;
pub use msg::{Msg, MsgProto, MsgType};
