use vstd::prelude::*;

use super::model::{HysteriaConfig, XrayConfig};

verus! {

/// What a node sends to the hub.
#[derive(Debug, Clone)]
pub enum NodeMessage {
    /// The first message of a connection: who the node is, how to reach it
    /// and what it serves.
    Register {
        node_id: String,
        auth_secret: String,
        public_ip: String,
        inbound_tags: Vec<String>,
        name_en: Option<String>,
        country_code: Option<String>,
        country_flag: Option<String>,
        xray: Option<XrayConfig>,
        hysteria: Option<HysteriaConfig>,
    },
    /// Keepalive; the hub answers `Pong`.
    Ping,
    /// Bytes per user since the last report.
    TrafficReport { user_bytes: Vec<(String, u64)> },
    /// The answer to a command sent by the hub.
    CommandResult { command_id: String, success: bool, error_message: String },
}

/// What the hub sends to a node.
#[derive(Debug, Clone)]
pub enum HubMessage {
    AuthOk,
    AuthFailed { reason: String },
    Pong,
    AddUser { command_id: String, uuid: String, inbound_tags: Vec<String> },
    RemoveUser { command_id: String, email: String, inbound_tags: Vec<String> },
}

/// A node's answer to a command.
#[derive(Debug, Clone)]
pub struct CommandResult {
    pub success: bool,
    pub error_message: String,
}

} // verus!
