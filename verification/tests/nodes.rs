use vpn_hub::error::AppError;
use vpn_hub::nodes::commander::{
    add_user_error, AddUserAction, AddUserEvent, AddUserToNodeFlow, CommandAction, CommandEvent, CommandFlow,
    CommandKind, CommanderError,
};
use vpn_hub::nodes::connect::{check_stream_hello, filter_non_empty_tags, ConnectNodeCommand, StreamHello, StreamPayload, StreamRejection};
use vpn_hub::nodes::messages::{CommandResult, HubMessage, NodeMessage};
use vpn_hub::nodes::model::{HysteriaConfig, Node, NodeDto, NodeStatus, XrayConfig};
use vpn_hub::nodes::registry::Registry;
use vpn_hub::nodes::report::{ReportAction, ReportEvent, ReportTrafficFlow};
use vpn_hub::nodes::session::{Frame, NodeSession, SendOutcome, SessionAction, SessionEvent};

#[test]
fn node_status_names() {
    assert_eq!(NodeStatus::Online.as_str(), "online");
    assert_eq!(NodeStatus::Offline.as_str(), "offline");
    assert_eq!(NodeStatus::parse("ONLINE"), NodeStatus::Online);
    assert_eq!(NodeStatus::parse("Online"), NodeStatus::Online);
    assert_eq!(NodeStatus::parse("gone"), NodeStatus::Offline);
    assert_eq!(NodeStatus::from_lowercase("online"), NodeStatus::Online);
    assert_eq!(NodeStatus::from_lowercase("Online"), NodeStatus::Offline);
    assert_eq!(NodeStatus::Online.last_seen_update(9), Some(9));
    assert_eq!(NodeStatus::Offline.last_seen_update(9), None);
}

#[test]
fn node_dto_copies_configs() {
    let n = Node {
        id: "n1".to_string(),
        public_ip: "1.2.3.4".to_string(),
        name_en: "Frankfurt".to_string(),
        country_code: "DE".to_string(),
        country_flag: "F".to_string(),
        xray: Some(XrayConfig { port: 443, sni: "a.b".to_string(), public_key: "pk".to_string(), short_id: "s".to_string() }),
        hysteria: None,
        status: NodeStatus::Online,
        last_seen_at: None,
        created_at: 0,
        modified_at: 0,
    };
    let d = NodeDto::from_node(n);
    assert_eq!(d.id, "n1");
    assert_eq!(d.name_en, "Frankfurt");
    assert_eq!(d.name_ru, "Frankfurt");
    assert_eq!(d.xray.unwrap().port, 443);
    assert!(d.hysteria.is_none());
}

#[test]
fn registry_read_after_write() {
    // Law: a registered value is found; unregistering removes only that id.
    let mut r: Registry<u32> = Registry::new();
    assert!(r.get("a").is_none());
    r.insert("a".to_string(), 1);
    r.insert("b".to_string(), 2);
    assert_eq!(r.get("a"), Some(&1));
    r.insert("a".to_string(), 3);
    assert_eq!(r.get("a"), Some(&3));
    assert_eq!(r.remove("a"), Some(3));
    assert!(!r.contains("a"));
    assert_eq!(r.get("b"), Some(&2));
    assert_eq!(r.remove("a"), None);
}

#[test]
fn commander_error_texts() {
    assert_eq!(CommanderError::NodeNotConnected("n1".to_string()).message(), "Node n1 is not connected");
    assert_eq!(CommanderError::NodeRejected("no".to_string()).message(), "Node rejected the action: no");
    assert_eq!(CommanderError::Timeout.message(), "Command execution timed out");
    assert_eq!(CommanderError::SendError.message(), "Failed to send command over gRPC channel");
    assert_eq!(CommanderError::Internal("x".to_string()).message(), "Internal error: x");
    assert_eq!(add_user_error(CommanderError::NodeNotConnected("n1".to_string())), AppError::ValidationError("Node n1 is not connected".to_string()));
    assert_eq!(add_user_error(CommanderError::NodeRejected("full".to_string())), AppError::ValidationError("Node rejected: full".to_string()));
    assert_eq!(add_user_error(CommanderError::Timeout), AppError::ValidationError("Timeout waiting for node".to_string()));
    assert_eq!(add_user_error(CommanderError::SendError), AppError::InternalError);
}

#[test]
fn command_to_disconnected_node() {
    let (flow, a) = CommandFlow::start(CommandKind::AddUser, "n9", "u1", None);
    assert!(flow.finished());
    match a {
        CommandAction::Finish { result, forget } => {
            assert_eq!(result, Err(CommanderError::NodeNotConnected("n9".to_string())));
            assert!(forget.is_none());
        }
        other => panic!("unexpected {:?}", other),
    }
}

#[test]
fn command_round_trip_and_record_release() {
    // Law: every ending before the answer is handed over drops the record.
    let tags = vec!["vless".to_string()];
    let (flow, a) = CommandFlow::start(CommandKind::RemoveUser, "n1", "u1", Some(tags.clone()));
    let id = match a {
        CommandAction::Dispatch { command_id, message: HubMessage::RemoveUser { command_id: c, email, inbound_tags } } => {
            assert_eq!(command_id, c);
            assert_eq!(email, "u1");
            assert_eq!(inbound_tags, tags);
            assert_eq!(command_id.len(), 36);
            // A version 4 UUID of the RFC 4122 variant.
            assert_eq!(command_id.as_bytes()[14], b'4');
            assert!(matches!(command_id.as_bytes()[19], b'8' | b'9' | b'a' | b'b'));
            command_id
        }
        other => panic!("unexpected {:?}", other),
    };
    let (flow2, a) = flow.step(CommandEvent::Dispatched(true));
    assert!(matches!(a, CommandAction::AwaitReply { timeout_secs: 10, .. }));
    let (_, a) = flow2.step(CommandEvent::ReplyTimedOut);
    match a {
        CommandAction::Finish { result, forget } => {
            assert_eq!(result, Err(CommanderError::Timeout));
            assert_eq!(forget, Some(id.clone()));
        }
        other => panic!("unexpected {:?}", other),
    }

    let (flow, _) = CommandFlow::start_with_id(CommandKind::AddUser, "n1", "u2", Some(tags.clone()), "c1".to_string());
    let (_, a) = flow.step(CommandEvent::Dispatched(false));
    assert!(matches!(a, CommandAction::Finish { result: Err(CommanderError::SendError), forget: Some(ref c) } if c == "c1"));

    let (flow, a) = CommandFlow::start_with_id(CommandKind::AddUser, "n1", "u2", Some(tags.clone()), "c2".to_string());
    assert!(matches!(a, CommandAction::Dispatch { message: HubMessage::AddUser { ref uuid, .. }, .. } if uuid == "u2"));
    let (flow, _) = flow.step(CommandEvent::Dispatched(true));
    let (_, a) = flow.step(CommandEvent::ReplyReceived(CommandResult { success: false, error_message: "nope".to_string() }));
    assert!(matches!(a, CommandAction::Finish { result: Err(CommanderError::NodeRejected(ref m)), forget: None } if m == "nope"));

    let (flow, _) = CommandFlow::start_with_id(CommandKind::AddUser, "n1", "u2", Some(tags), "c3".to_string());
    let (flow, _) = flow.step(CommandEvent::Dispatched(true));
    let (_, a) = flow.step(CommandEvent::ReplyReceived(CommandResult { success: true, error_message: String::new() }));
    assert!(matches!(a, CommandAction::Finish { result: Ok(true), forget: None }));
}

fn run_add_user(remaining: Result<u64, AppError>, executed: Result<bool, CommanderError>) -> Result<(), AppError> {
    let (mut flow, mut action) = AddUserToNodeFlow::start("n1".to_string(), "u1".to_string());
    let mut remaining = Some(remaining);
    let mut executed = Some(executed);
    loop {
        let event = match action {
            AddUserAction::Finish(r) => return r,
            AddUserAction::GetRemaining { .. } => AddUserEvent::RemainingRead(remaining.take().unwrap()),
            AddUserAction::ExecuteAddUser { .. } => AddUserEvent::Executed(executed.take().unwrap()),
        };
        let (f, a) = flow.step(event);
        flow = f;
        action = a;
    }
}

#[test]
fn add_user_to_node() {
    assert_eq!(run_add_user(Ok(0), Ok(true)), Err(AppError::TrafficExhausted));
    assert_eq!(run_add_user(Ok(5), Ok(true)), Ok(()));
    assert_eq!(run_add_user(Ok(5), Ok(false)), Err(AppError::NodeRejectedAction));
    assert_eq!(run_add_user(Ok(5), Err(CommanderError::Timeout)), Err(AppError::ValidationError("Timeout waiting for node".to_string())));
    assert_eq!(run_add_user(Err(AppError::InternalError), Ok(true)), Err(AppError::InternalError));
}

#[test]
fn traffic_report_removes_exhausted_users() {
    let entries = vec![("a".to_string(), 10u64), ("b".to_string(), 20), ("c".to_string(), 30)];
    let (mut flow, mut action) = ReportTrafficFlow::start("n1".to_string(), entries);
    let mut consumed = vec![];
    let mut removed = vec![];
    loop {
        let event = match action {
            ReportAction::Done => break,
            ReportAction::Consume { user_uuid, bytes } => {
                consumed.push((user_uuid.clone(), bytes));
                match user_uuid.as_str() {
                    "a" => ReportEvent::Consumed(Ok(0)),
                    "b" => ReportEvent::Consumed(Err(AppError::InternalError)),
                    _ => ReportEvent::Consumed(Ok(7)),
                }
            }
            ReportAction::RemoveUser { node_id, user_uuid } => {
                assert_eq!(node_id, "n1");
                removed.push(user_uuid);
                ReportEvent::RemoveFinished(Err(CommanderError::Timeout))
            }
        };
        let (f, a) = flow.step(event);
        flow = f;
        action = a;
    }
    assert_eq!(consumed, vec![("a".to_string(), 10), ("b".to_string(), 20), ("c".to_string(), 30)]);
    assert_eq!(removed, vec!["a".to_string()]);
    let (_, a) = ReportTrafficFlow::start("n1".to_string(), vec![]);
    assert!(matches!(a, ReportAction::Done));
}

#[test]
fn connect_checks_secret() {
    let cmd = ConnectNodeCommand::new("s3cret".to_string());
    assert_eq!(cmd.authorize("s3cret"), Ok(()));
    assert_eq!(cmd.authorize("guess"), Err(AppError::WrongCredentials));
}

#[test]
fn grpc_first_message() {
    let hello = |id: &str, secret: &str, payload| Ok(Some(StreamHello { node_id: id.to_string(), auth_secret: secret.to_string(), payload }));
    let reg = Some(StreamPayload::Registration { inbound_tags: vec!["a".to_string(), String::new(), "b".to_string()] });
    assert_eq!(check_stream_hello(hello("n", "s", reg.clone())), Ok(("n".to_string(), "s".to_string(), vec!["a".to_string(), "b".to_string()])));
    assert_eq!(check_stream_hello(hello("", "s", reg)), Err(StreamRejection::Unauthenticated("Node ID or auth secret is empty".to_string())));
    assert_eq!(
        check_stream_hello(hello("n", "s", Some(StreamPayload::TrafficReport))),
        Err(StreamRejection::InvalidArgument("First message must contain NodeRegistration payload".to_string()))
    );
    assert_eq!(check_stream_hello(Ok(None)), Err(StreamRejection::InvalidArgument("Empty stream".to_string())));
    assert_eq!(check_stream_hello(Err("eof".to_string())), Err(StreamRejection::Internal("Stream read error: eof".to_string())));
    assert_eq!(filter_non_empty_tags(&vec![String::new()]), Vec::<String>::new());
}

fn register(node_id: &str, secret: &str) -> SessionEvent {
    SessionEvent::Received(Frame::Text(Ok(NodeMessage::Register {
        node_id: node_id.to_string(),
        auth_secret: secret.to_string(),
        public_ip: "9.9.9.9".to_string(),
        inbound_tags: vec!["t".to_string()],
        name_en: None,
        country_code: Some(String::new()),
        country_flag: Some("F".to_string()),
        xray: None,
        hysteria: Some(HysteriaConfig { port: 1, sni: "x".to_string() }),
    })))
}

#[test]
fn session_authenticates_then_registers() {
    // Law: registration only after authentication.
    let (s, a) = NodeSession::new();
    assert!(matches!(a, SessionAction::Receive));
    let (s, a) = s.step(SessionEvent::Received(Frame::Ping));
    assert!(matches!(a, SessionAction::Receive));
    let (s, a) = s.step(register("n1", "pw"));
    match a {
        SessionAction::Authenticate { node_id, auth_secret, name_en, country_code, country_flag, .. } => {
            assert_eq!(node_id, "n1");
            assert_eq!(auth_secret, "pw");
            assert_eq!(name_en, "Server n1");
            assert_eq!(country_code, "DE");
            assert_eq!(country_flag, "F");
        }
        other => panic!("unexpected {:?}", other),
    }
    let (s, a) = s.step(SessionEvent::Authenticated(Ok(())));
    assert!(matches!(a, SessionAction::Send(HubMessage::AuthOk)));
    let (s, a) = s.step(SessionEvent::Sent(SendOutcome::Delivered));
    assert!(matches!(a, SessionAction::Register { ref node_id, ref inbound_tags } if node_id == "n1" && inbound_tags == &vec!["t".to_string()]));
    let (s, a) = s.step(SessionEvent::Tick);
    assert!(matches!(a, SessionAction::Send(HubMessage::Pong)));
    let (s, a) = s.step(SessionEvent::Sent(SendOutcome::Delivered));
    assert!(matches!(a, SessionAction::Wait));
    let (s, a) = s.step(SessionEvent::Received(Frame::Text(Ok(NodeMessage::TrafficReport { user_bytes: vec![("u".to_string(), 5)] }))));
    assert!(matches!(a, SessionAction::HandleReport { .. }));
    let (s, a) = s.step(SessionEvent::Received(Frame::Text(Ok(NodeMessage::CommandResult { command_id: "c".to_string(), success: true, error_message: String::new() }))));
    assert!(matches!(a, SessionAction::Resolve { ref command_id, .. } if command_id == "c"));
    let (s, a) = s.step(SessionEvent::Received(Frame::Close));
    assert!(matches!(a, SessionAction::Wait));
    let (s, a) = s.step(SessionEvent::Outbound(Some(HubMessage::Pong)));
    assert!(matches!(a, SessionAction::Send(_)));
    // Law: a registered session ends through cleanup.
    let (s, a) = s.step(SessionEvent::Sent(SendOutcome::Failed));
    assert!(matches!(a, SessionAction::Cleanup { ref node_id } if node_id == "n1"));
    assert!(s.closed());
}

#[test]
fn session_refuses_bad_first_messages() {
    let (s, _) = NodeSession::new();
    let (s, a) = s.step(register("", "pw"));
    assert!(s.closed());
    assert!(matches!(a, SessionAction::SendThenClose(HubMessage::AuthFailed { ref reason }) if reason == "Node ID or auth secret is empty"));

    let (s, _) = NodeSession::new();
    let (s, a) = s.step(SessionEvent::Received(Frame::Text(Ok(NodeMessage::Ping))));
    assert!(s.closed() && matches!(a, SessionAction::Close));

    let (s, _) = NodeSession::new();
    let (_, a) = s.step(SessionEvent::Received(Frame::Text(Err("bad json".to_string()))));
    assert!(matches!(a, SessionAction::Close));

    let (s, _) = NodeSession::new();
    let (s, _) = s.step(register("n1", "pw"));
    let (s, a) = s.step(SessionEvent::Authenticated(Err("wrong credentials".to_string())));
    assert!(s.closed());
    assert!(matches!(a, SessionAction::SendThenClose(HubMessage::AuthFailed { ref reason }) if reason == "wrong credentials"));

    let (s, _) = NodeSession::new();
    let (s, _) = s.step(register("n1", "pw"));
    let (s, _) = s.step(SessionEvent::Authenticated(Ok(())));
    let (_, a) = s.step(SessionEvent::Sent(SendOutcome::Failed));
    assert!(matches!(a, SessionAction::Close));
}

#[test]
fn session_ends_on_stream_end_with_cleanup() {
    let (s, _) = NodeSession::new();
    let (s, _) = s.step(register("n7", "pw"));
    let (s, _) = s.step(SessionEvent::Authenticated(Ok(())));
    let (s, _) = s.step(SessionEvent::Sent(SendOutcome::NotSerialized));
    let (s, a) = s.step(SessionEvent::Received(Frame::Text(Ok(NodeMessage::Ping))));
    assert!(matches!(a, SessionAction::Send(HubMessage::Pong)));
    let (s, _) = s.step(SessionEvent::Sent(SendOutcome::NotSerialized));
    let (s, a) = s.step(SessionEvent::StreamEnded);
    assert!(s.closed());
    assert!(matches!(a, SessionAction::Cleanup { ref node_id } if node_id == "n7"));
}
