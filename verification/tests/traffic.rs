use vpn_hub::error::AppError;
use vpn_hub::traffic::commands::{AddTrafficCommand, SetTrafficDto, TrafficAction, TrafficEvent, TrafficFlow};
use vpn_hub::traffic::model::{TrafficHistoryItemDto, TrafficHistoryResponseDto, TrafficPacket, TrafficPacketDto, TrafficSummary, TrafficSummaryDto};
use vpn_hub::traffic::ws_tokens::GetWsTokensCommand;

use uuid::Uuid;

fn now_us() -> i64 {
    chrono::Utc::now().timestamp_micros()
}

/// An in-memory store whose remaining traffic moves with each packet.
struct MemoryTraffic {
    remaining: u64,
    added: Vec<i64>,
    consumed: Vec<u64>,
}

impl MemoryTraffic {
    fn run(&mut self, (mut flow, mut action): (TrafficFlow, TrafficAction)) -> Result<TrafficSummary, AppError> {
        loop {
            let event = match action {
                TrafficAction::Finish(r) => return r,
                TrafficAction::GetRemaining { .. } => TrafficEvent::RemainingRead(Ok(self.remaining)),
                TrafficAction::AddPacket { bytes, .. } => {
                    self.added.push(bytes);
                    self.remaining = (self.remaining as i128 + bytes as i128) as u64;
                    TrafficEvent::PacketAdded(Ok(TrafficPacket {
                        id: 1,
                        user_id: 2,
                        traffic_limit_bytes: bytes,
                        traffic_remaining_bytes: bytes,
                        expires_at: 0,
                        created_at: 0,
                        modified_at: 0,
                    }))
                }
                TrafficAction::Consume { bytes, .. } => {
                    self.consumed.push(bytes);
                    self.remaining = self.remaining.saturating_sub(bytes);
                    TrafficEvent::Consumed(Ok(self.remaining))
                }
                TrafficAction::GetSummary { .. } => TrafficEvent::SummaryRead(Ok(TrafficSummary {
                    total_bytes: 0,
                    remaining_bytes: self.remaining as i64,
                    updated_at_ms: 5,
                })),
            };
            let (f, a) = flow.step(event);
            flow = f;
            action = a;
        }
    }
}

#[test]
fn set_traffic_lands_on_target() {
    // Law: setting the traffic moves the remaining bytes to the target.
    for (start, target) in [(100u64, 250u64), (250, 100), (42, 42), (0, 1)] {
        let mut store = MemoryTraffic { remaining: start, added: vec![], consumed: vec![] };
        let summary = store.run(TrafficFlow::set("u".to_string(), target)).unwrap();
        assert_eq!(store.remaining, target);
        assert_eq!(summary.remaining_bytes, target as i64);
    }
    let mut store = MemoryTraffic { remaining: 100, added: vec![], consumed: vec![] };
    store.run(TrafficFlow::set("u".to_string(), 250)).unwrap();
    assert_eq!(store.added, vec![150]);
    assert!(store.consumed.is_empty());
    let mut store = MemoryTraffic { remaining: 100, added: vec![], consumed: vec![] };
    store.run(TrafficFlow::set("u".to_string(), 40)).unwrap();
    assert_eq!(store.consumed, vec![60]);
    assert!(store.added.is_empty());
    let mut store = MemoryTraffic { remaining: 7, added: vec![], consumed: vec![] };
    store.run(TrafficFlow::set("u".to_string(), 7)).unwrap();
    assert!(store.added.is_empty() && store.consumed.is_empty());
}

#[test]
fn set_traffic_difference_is_cast_to_i64() {
    let (flow, _) = TrafficFlow::set("u".to_string(), u64::MAX);
    let (_, a) = flow.step(TrafficEvent::RemainingRead(Ok(0)));
    assert!(matches!(a, TrafficAction::AddPacket { bytes: -1, .. }));
}

#[test]
fn set_traffic_stops_on_store_error() {
    let (flow, _) = TrafficFlow::set("u".to_string(), 10);
    let (flow, a) = flow.step(TrafficEvent::RemainingRead(Err(AppError::InternalError)));
    assert!(flow.finished());
    assert!(matches!(a, TrafficAction::Finish(Err(AppError::InternalError))));
}

#[test]
fn subtract_traffic() {
    let mut store = MemoryTraffic { remaining: 500, added: vec![], consumed: vec![] };
    let summary = store.run(TrafficFlow::subtract("u".to_string(), 120)).unwrap();
    assert_eq!(summary.remaining_bytes, 380);
    let (flow, a) = TrafficFlow::subtract("u".to_string(), 0);
    assert!(flow.finished());
    match a {
        TrafficAction::Finish(Err(AppError::ValidationError(m))) => {
            assert_eq!(m, "Traffic bytes to subtract must be greater than zero")
        }
        other => panic!("unexpected {:?}", other),
    }
}

#[test]
fn add_traffic_needs_positive_bytes() {
    let cmd = AddTrafficCommand::new();
    assert!(cmd.check(1).is_ok());
    assert_eq!(cmd.check(0), Err(AppError::ValidationError("Traffic bytes must be greater than zero".to_string())));
    assert!(cmd.check(-5).is_err());
}

#[test]
fn set_traffic_request_target() {
    let dto = SetTrafficDto { user_id: Some("  other  ".to_string()), mb: 3 };
    assert_eq!(dto.target_user("me"), "other");
    assert_eq!(dto.target_bytes(), 3 * 1024 * 1024);
    let dto = SetTrafficDto { user_id: Some("   ".to_string()), mb: 0 };
    assert_eq!(dto.target_user("me"), "me");
    assert_eq!(dto.target_bytes(), 0);
    let dto = SetTrafficDto { user_id: None, mb: 1 };
    assert_eq!(dto.target_user("me"), "me");
}

#[test]
fn test_traffic_history_item_dto_conversion_and_serialization() {
    let packet = TrafficPacket {
        id: Uuid::nil().as_u128(),
        user_id: Uuid::new_v4().as_u128(),
        traffic_limit_bytes: 1000,
        traffic_remaining_bytes: 800,
        expires_at: now_us(),
        created_at: now_us(),
        modified_at: now_us(),
    };
    let item = TrafficHistoryItemDto::from_packet(packet);
    assert_eq!(item.id, "00000000-0000-0000-0000-000000000000");
    assert_eq!(item.traffic_limit_bytes, 1000);
    assert_eq!(item.traffic_remaining_bytes, 800);
    assert!(!item.created_at.is_empty());
    assert!(!item.expires_at.is_empty());
    let response = TrafficHistoryResponseDto::build(vec![packet], now_us());
    assert!(!response.server_time.is_empty());
    assert_eq!(response.items.len(), 1);
}

#[test]
fn packet_and_summary_dtos() {
    let p = TrafficPacket {
        id: 1,
        user_id: 0xffff_ffff_ffff_ffff_ffff_ffff_ffff_ffff,
        traffic_limit_bytes: 10,
        traffic_remaining_bytes: 4,
        expires_at: 0,
        created_at: 1_000_000,
        modified_at: 0,
    };
    let d = TrafficPacketDto::from_packet(p);
    assert_eq!(d.id, "00000000-0000-0000-0000-000000000001");
    assert_eq!(d.user_id, "ffffffff-ffff-ffff-ffff-ffffffffffff");
    assert_eq!(d.created_at, "1970-01-01T00:00:01+00:00");
    assert_eq!(d.expires_at, "1970-01-01T00:00:00+00:00");
    let s = TrafficSummaryDto::from_summary(TrafficSummary { total_bytes: 9, remaining_bytes: 8, updated_at_ms: 7 });
    assert_eq!((s.traffic_total_bytes, s.traffic_remaining_bytes, s.updated_at_ms), (9, 8, 7));
    let r = TrafficHistoryResponseDto::build(vec![p, p], 0);
    assert_eq!(r.server_time, "1970-01-01T00:00:00+00:00");
    assert_eq!(r.items.len(), 2);
    assert_eq!(r.items[1].id, "00000000-0000-0000-0000-000000000001");
}

#[test]
fn ws_tokens_use_personal_channel() {
    let cmd = GetWsTokensCommand::new();
    assert_eq!(cmd.channel_for("42"), "personal:42");
    let connect_ok = |u: &str| -> Result<String, AppError> { Ok(format!("c-{}", u)) };
    let connect_err = |_u: &str| -> Result<String, AppError> { Err(AppError::InternalError) };
    let subscribe_ok = |u: &str, ch: &str| -> Result<String, AppError> { Ok(format!("s-{}-{}", u, ch)) };
    let subscribe_err = |_u: &str, _ch: &str| -> Result<String, AppError> { Err(AppError::WrongCredentials) };
    let ok = cmd.execute(&connect_ok, &subscribe_ok, "42").unwrap();
    assert_eq!(ok, ("c-42".to_string(), "s-42-personal:42".to_string(), "personal:42".to_string()));
    assert_eq!(cmd.execute(&connect_err, &subscribe_err, "42"), Err(AppError::InternalError));
    assert_eq!(cmd.execute(&connect_ok, &subscribe_err, "42"), Err(AppError::WrongCredentials));
}
