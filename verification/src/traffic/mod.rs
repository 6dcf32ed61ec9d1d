//! Traffic accounting: packets of bytes with an expiry, and the commands
//! that add, subtract or set a user's remaining traffic.

pub mod model;
pub mod commands;
pub mod ws_tokens;
