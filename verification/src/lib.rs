//! Verified core of a VPN service backend: promo codes, traffic accounting,
//! user profiles and the node hub that talks to VPN agents.
//!
//! Everything here is synchronous and free of I/O. Operations that the service
//! performs against its database, its realtime channel or a connected node are
//! written as state machines: a caller performs the requested action and hands
//! the outcome back as an event.

pub mod error;
pub mod text;
pub mod interop;
pub mod promocode;
pub mod traffic;
pub mod user;
pub mod nodes;
