//! The node hub: VPN agents connect, authenticate, report traffic and take
//! commands to add or remove users.

pub mod model;
pub mod messages;
pub mod registry;
pub mod commander;
pub mod report;
pub mod session;
pub mod connect;
