//! Peer-to-peer messaging core: a binary packet codec, single-use delivery
//! confirmations, the decisions of the per-connection handler and of the
//! connection registry, and a drain-safe queue for relaying backend events.

pub mod error;
pub mod packet;
pub mod delivery;
pub mod exchange;
pub mod registry;
pub mod relay;
pub mod notification;
pub mod chat;
pub mod pages;
