use vstd::prelude::*;

use crate::interop::{
    rfc3339_from_micros, spec_rfc3339_micros, uuid_text, uuid_to_string, valid_timestamp_us,
};

verus! {

/// A single traffic allocation (for instance 25 GB for 30 days). Instants
/// are microseconds since the Unix epoch; ids are UUID values.
#[derive(Debug, Clone, Copy, PartialEq, Eq)]
pub struct TrafficPacket {
    pub id: u128,
    pub user_id: u128,
    pub traffic_limit_bytes: i64,
    pub traffic_remaining_bytes: i64,
    pub expires_at: i64,
    pub created_at: i64,
    pub modified_at: i64,
}

/// A user's traffic over all active packets.
#[derive(Debug, Clone, Copy, PartialEq, Eq, Default)]
pub struct TrafficSummary {
    /// Total bytes of all active, unexpired packets (the plan size).
    pub total_bytes: i64,
    /// Remaining bytes of all active, unexpired packets.
    pub remaining_bytes: i64,
    /// Milliseconds timestamp of the last change to any active packet;
    /// clients use it as a monotonic cursor and drop any update whose
    /// `updated_at_ms` is not greater than the last one they applied.
    pub updated_at_ms: i64,
}

/// The summary that the API shows.
#[derive(Debug, Clone, Copy, PartialEq, Eq)]
pub struct TrafficSummaryDto {
    pub traffic_total_bytes: i64,
    pub traffic_remaining_bytes: i64,
    pub updated_at_ms: i64,
}

impl TrafficSummaryDto {
    pub fn from_summary(s: TrafficSummary) -> (r: TrafficSummaryDto)
        ensures
            r.traffic_total_bytes == s.total_bytes,
            r.traffic_remaining_bytes == s.remaining_bytes,
            r.updated_at_ms == s.updated_at_ms,
    {
        TrafficSummaryDto {
            traffic_total_bytes: s.total_bytes,
            traffic_remaining_bytes: s.remaining_bytes,
            updated_at_ms: s.updated_at_ms,
        }
    }
}

/// The packet's instants fit chrono's range, as every stored packet's do.
pub open spec fn packet_times_valid(p: TrafficPacket) -> bool {
    valid_timestamp_us(p.created_at as int) && valid_timestamp_us(p.expires_at as int)
}

/// A packet as the API shows it.
#[derive(Debug)]
pub struct TrafficPacketDto {
    pub id: String,
    pub user_id: String,
    pub traffic_limit_bytes: i64,
    pub traffic_remaining_bytes: i64,
    pub created_at: String,
    pub expires_at: String,
}

impl TrafficPacketDto {
    pub fn from_packet(p: TrafficPacket) -> (r: TrafficPacketDto)
        requires
            packet_times_valid(p),
        ensures
            r.id@ == uuid_text(p.id),
            r.user_id@ == uuid_text(p.user_id),
            r.traffic_limit_bytes == p.traffic_limit_bytes,
            r.traffic_remaining_bytes == p.traffic_remaining_bytes,
            r.created_at@ == spec_rfc3339_micros(p.created_at),
            r.expires_at@ == spec_rfc3339_micros(p.expires_at),
    {
        TrafficPacketDto {
            id: uuid_to_string(p.id),
            user_id: uuid_to_string(p.user_id),
            traffic_limit_bytes: p.traffic_limit_bytes,
            traffic_remaining_bytes: p.traffic_remaining_bytes,
            created_at: rfc3339_from_micros(p.created_at),
            expires_at: rfc3339_from_micros(p.expires_at),
        }
    }
}

/// A packet in the user's history (the user id is left out).
#[derive(Debug)]
pub struct TrafficHistoryItemDto {
    pub id: String,
    pub traffic_limit_bytes: i64,
    pub traffic_remaining_bytes: i64,
    pub created_at: String,
    pub expires_at: String,
}

pub open spec fn history_item_of(item: TrafficHistoryItemDto, p: TrafficPacket) -> bool {
    &&& item.id@ == uuid_text(p.id)
    &&& item.traffic_limit_bytes == p.traffic_limit_bytes
    &&& item.traffic_remaining_bytes == p.traffic_remaining_bytes
    &&& item.created_at@ == spec_rfc3339_micros(p.created_at)
    &&& item.expires_at@ == spec_rfc3339_micros(p.expires_at)
}

impl TrafficHistoryItemDto {
    pub fn from_packet(p: TrafficPacket) -> (r: TrafficHistoryItemDto)
        requires
            packet_times_valid(p),
        ensures
            history_item_of(r, p),
    {
        TrafficHistoryItemDto {
            id: uuid_to_string(p.id),
            traffic_limit_bytes: p.traffic_limit_bytes,
            traffic_remaining_bytes: p.traffic_remaining_bytes,
            created_at: rfc3339_from_micros(p.created_at),
            expires_at: rfc3339_from_micros(p.expires_at),
        }
    }
}

/// The history answer: the server's time and the packets in the order given.
#[derive(Debug)]
pub struct TrafficHistoryResponseDto {
    pub server_time: String,
    pub items: Vec<TrafficHistoryItemDto>,
}

impl TrafficHistoryResponseDto {
    /// Builds the answer for `packets` at server time `now`.
    pub fn build(packets: Vec<TrafficPacket>, now: i64) -> (r: TrafficHistoryResponseDto)
        requires
            valid_timestamp_us(now as int),
            forall|i: int| 0 <= i < packets.len() ==> packet_times_valid(#[trigger] packets@[i]),
        ensures
            r.server_time@ == spec_rfc3339_micros(now),
            r.items.len() == packets.len(),
            forall|i: int| 0 <= i < packets.len() ==> history_item_of(#[trigger] r.items@[i], packets@[i]),
    {
        let mut items: Vec<TrafficHistoryItemDto> = Vec::new();
        let n = packets.len();
        let mut i: usize = 0;
        while i < n
            invariant
                n == packets.len(),
                i <= n,
                items.len() == i,
                forall|j: int| 0 <= j < packets.len() ==> packet_times_valid(#[trigger] packets@[j]),
                forall|j: int| 0 <= j < i ==> history_item_of(#[trigger] items@[j], packets@[j]),
            decreases n - i,
        {
            items.push(TrafficHistoryItemDto::from_packet(packets[i]));
            i = i + 1;
        }
        TrafficHistoryResponseDto { server_time: rfc3339_from_micros(now), items }
    }
}

/// The realtime tokens and channel of a user.
#[derive(Debug)]
pub struct CentrifugeTokenDto {
    pub connection_token: String,
    pub subscription_token: String,
    pub channel: String,
}

} // verus!
