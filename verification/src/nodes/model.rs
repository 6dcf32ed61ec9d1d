use vstd::prelude::*;

use crate::interop::{lowercased, to_lowercase};
use crate::text::str_eq;

verus! {

/// Whether a node is connected to the hub.
#[derive(Debug, Clone, Copy, PartialEq, Eq, Structural)]
pub enum NodeStatus {
    Online,
    Offline,
}

impl NodeStatus {
    pub open spec fn name(self) -> Seq<char> {
        match self {
            NodeStatus::Online => "online"@,
            NodeStatus::Offline => "offline"@,
        }
    }

    /// The stored name: `online` or `offline` (what `Display` writes).
    pub fn as_str(&self) -> (r: &'static str)
        ensures
            r@ == self.name(),
    {
        match self {
            NodeStatus::Online => "online",
            NodeStatus::Offline => "offline",
        }
    }

    /// The status named by an already lowercased text: `online`, and
    /// anything else is `Offline`.
    pub fn from_lowercase(lower: &str) -> (r: NodeStatus)
        ensures
            r == (if lower@ == "online"@ {
                NodeStatus::Online
            } else {
                NodeStatus::Offline
            }),
    {
        if str_eq(lower, "online") {
            NodeStatus::Online
        } else {
            NodeStatus::Offline
        }
    }

    /// Parses a stored status, ignoring case; it never fails.
    pub fn parse(s: &str) -> (r: NodeStatus)
        ensures
            r == (if lowercased(s@) == "online"@ {
                NodeStatus::Online
            } else {
                NodeStatus::Offline
            }),
    {
        let lower = to_lowercase(s);
        Self::from_lowercase(lower.as_str())
    }

    /// The new last-seen instant when the status is stored at `now`: an
    /// online node is seen now; going offline keeps the old value.
    pub fn last_seen_update(&self, now: i64) -> (r: Option<i64>)
        ensures
            r == (if *self == NodeStatus::Online {
                Some(now)
            } else {
                None
            }),
    {
        match self {
            NodeStatus::Online => Some(now),
            NodeStatus::Offline => None,
        }
    }
}

/// Xray (VLESS Reality) inbound settings of a node.
#[derive(Debug, Clone, PartialEq, Eq)]
pub struct XrayConfig {
    pub port: u16,
    pub sni: String,
    pub public_key: String,
    pub short_id: String,
}

/// Hysteria inbound settings of a node.
#[derive(Debug, Clone, PartialEq, Eq)]
pub struct HysteriaConfig {
    pub port: u16,
    pub sni: String,
}

/// A VPN node as stored. Instants are microseconds since the Unix epoch.
#[derive(Debug, Clone)]
pub struct Node {
    pub id: String,
    pub public_ip: String,
    pub name_en: String,
    pub country_code: String,
    pub country_flag: String,
    pub xray: Option<XrayConfig>,
    pub hysteria: Option<HysteriaConfig>,
    pub status: NodeStatus,
    pub last_seen_at: Option<i64>,
    pub created_at: i64,
    pub modified_at: i64,
}

/// Bytes that a node's users transferred since the last report.
#[derive(Debug, Clone)]
pub struct TrafficReport {
    pub node_id: String,
    pub user_bytes: Vec<(String, u64)>,
}

#[derive(Debug, Clone, PartialEq, Eq)]
pub struct XrayConfigDto {
    pub port: u16,
    pub sni: String,
    pub public_key: String,
    pub short_id: String,
}

impl XrayConfigDto {
    pub fn from_config(c: XrayConfig) -> (r: XrayConfigDto)
        ensures
            r.port == c.port,
            r.sni == c.sni,
            r.public_key == c.public_key,
            r.short_id == c.short_id,
    {
        XrayConfigDto { port: c.port, sni: c.sni, public_key: c.public_key, short_id: c.short_id }
    }
}

#[derive(Debug, Clone, PartialEq, Eq)]
pub struct HysteriaConfigDto {
    pub port: u16,
    pub sni: String,
}

impl HysteriaConfigDto {
    pub fn from_config(c: HysteriaConfig) -> (r: HysteriaConfigDto)
        ensures
            r.port == c.port,
            r.sni == c.sni,
    {
        HysteriaConfigDto { port: c.port, sni: c.sni }
    }
}

/// A node as the API lists it. The node keeps a single display name, which
/// fills both `name_en` and `name_ru`.
#[derive(Debug, Clone)]
pub struct NodeDto {
    pub id: String,
    pub public_ip: String,
    pub name_en: String,
    pub name_ru: String,
    pub country_flag: String,
    pub xray: Option<XrayConfigDto>,
    pub hysteria: Option<HysteriaConfigDto>,
}

impl NodeDto {
    pub fn from_node(n: Node) -> (r: NodeDto)
        ensures
            r.id == n.id,
            r.public_ip == n.public_ip,
            r.name_en == n.name_en,
            r.name_ru@ == n.name_en@,
            r.country_flag == n.country_flag,
            match n.xray {
                Some(c) => r.xray matches Some(d) && d.port == c.port && d.sni == c.sni
                    && d.public_key == c.public_key && d.short_id == c.short_id,
                None => r.xray is None,
            },
            match n.hysteria {
                Some(c) => r.hysteria matches Some(d) && d.port == c.port && d.sni == c.sni,
                None => r.hysteria is None,
            },
    {
        let xray = match n.xray {
            Some(c) => Some(XrayConfigDto::from_config(c)),
            None => None,
        };
        let hysteria = match n.hysteria {
            Some(c) => Some(HysteriaConfigDto::from_config(c)),
            None => None,
        };
        let name_ru = n.name_en.clone();
        NodeDto {
            id: n.id,
            public_ip: n.public_ip,
            name_en: n.name_en,
            name_ru,
            country_flag: n.country_flag,
            xray,
            hysteria,
        }
    }
}

} // verus!
