//! A node's WebSocket session with the hub.
//!
//! The node's first message must register it with its credentials; after
//! the hub authenticated it and confirmed with `AuthOk`, the node is
//! registered as connected. From then on the session forwards the hub's
//! commands to the node, answers pings, keeps the link alive with periodic
//! pongs, hands traffic reports and command results over, and on any
//! failure unregisters the node and marks it offline.

use vstd::prelude::*;

use crate::text::concat;
use super::messages::{CommandResult, HubMessage, NodeMessage};
use super::model::{HysteriaConfig, XrayConfig};

verus! {

/// A frame read from the socket.
#[derive(Debug)]
pub enum Frame {
    /// A text frame: the node message it holds, or why it did not parse.
    Text(Result<NodeMessage, String>),
    Ping,
    Pong,
    Close,
    /// Any other frame (binary).
    Other,
}

/// How a send went.
#[derive(Debug, Clone, Copy, PartialEq, Eq, Structural)]
pub enum SendOutcome {
    Delivered,
    /// The message could not be serialized; nothing was sent.
    NotSerialized,
    /// The socket refused the message.
    Failed,
}

/// What happened next on the session.
#[derive(Debug)]
pub enum SessionEvent {
    Received(Frame),
    /// Reading the socket failed.
    ReadFailed,
    /// The socket closed.
    StreamEnded,
    /// The outcome of authenticating the node: the error's text on failure.
    Authenticated(Result<(), String>),
    /// The outcome of the last send.
    Sent(SendOutcome),
    /// A message from the node's command channel (`None`: the channel closed).
    Outbound(Option<HubMessage>),
    /// The keepalive interval elapsed.
    Tick,
}

/// What the caller must do next for the session.
#[derive(Debug)]
pub enum SessionAction {
    /// Read the next frame from the socket (before the node is connected).
    Receive,
    /// Wait for the next frame, outbound message or tick.
    Wait,
    /// Send the message and report how it went.
    Send(HubMessage),
    /// Send the message, whatever comes of it, and end the session.
    SendThenClose(HubMessage),
    /// Authenticate the node and store its details.
    Authenticate {
        node_id: String,
        auth_secret: String,
        public_ip: String,
        name_en: String,
        country_code: String,
        country_flag: String,
        xray: Option<XrayConfig>,
        hysteria: Option<HysteriaConfig>,
    },
    /// Register the node's command channel with these inbound tags, mark
    /// the node online, then wait.
    Register { node_id: String, inbound_tags: Vec<String> },
    /// Hand the traffic report over for handling, then wait.
    HandleReport { node_id: String, user_bytes: Vec<(String, u64)> },
    /// Hand a command's answer over, then wait.
    Resolve { command_id: String, result: CommandResult },
    /// Unregister the node, mark it offline, and end the session.
    Cleanup { node_id: String },
    /// End the session.
    Close,
}

/// Where a session stands.
#[derive(Debug)]
pub enum SessionStage {
    AwaitFirst,
    Authenticating { node_id: String, inbound_tags: Vec<String> },
    ConfirmingAuth { node_id: String, inbound_tags: Vec<String> },
    Connected { node_id: String },
    ConnectedSending { node_id: String },
    Closed,
}

#[derive(Debug)]
pub struct NodeSession {
    pub stage: SessionStage,
}

/// The text of the refusal for empty credentials.
pub open spec fn empty_credentials_reason() -> Seq<char> {
    "Node ID or auth secret is empty"@
}

/// A given, non-empty text, else `default`.
pub open spec fn or_default(v: Option<String>, default: Seq<char>) -> Seq<char> {
    match v {
        Some(s) if s@.len() > 0 => s@,
        _ => default,
    }
}

/// The country a node without one is placed in.
pub open spec fn default_country_code() -> Seq<char> {
    "DE"@
}

/// The flag of a node without one (a globe).
pub open spec fn default_country_flag() -> Seq<char> {
    "\u{1F310}"@
}

pub open spec fn is_terminal(a: SessionAction) -> bool {
    a is SendThenClose || a is Cleanup || a is Close
}

pub open spec fn closed(r: (NodeSession, SessionAction)) -> bool {
    r == (NodeSession { stage: SessionStage::Closed }, SessionAction::Close)
}

pub open spec fn goes(r: (NodeSession, SessionAction), s: SessionStage, a: SessionAction) -> bool {
    r == (NodeSession { stage: s }, a)
}

/// The session's decision after event `e`, as a relation on the answer `r`.
pub open spec fn session_step(f: NodeSession, e: SessionEvent, r: (NodeSession, SessionAction)) -> bool {
    match f.stage {
        SessionStage::AwaitFirst => match e {
            SessionEvent::Received(Frame::Text(Ok(NodeMessage::Register {
                node_id,
                auth_secret,
                public_ip,
                inbound_tags,
                name_en,
                country_code,
                country_flag,
                xray,
                hysteria,
            }))) => if node_id@.len() == 0 || auth_secret@.len() == 0 {
                &&& r.0.stage is Closed
                &&& r.1 matches SessionAction::SendThenClose(HubMessage::AuthFailed { reason })
                    && reason@ == empty_credentials_reason()
            } else {
                &&& r.0.stage == (SessionStage::Authenticating { node_id, inbound_tags })
                &&& r.1 matches SessionAction::Authenticate {
                    node_id: n,
                    auth_secret: s,
                    public_ip: ip,
                    name_en: name,
                    country_code: code,
                    country_flag: flag,
                    xray: x,
                    hysteria: h,
                } && n == node_id && s == auth_secret && ip == public_ip && x == xray && h == hysteria
                    && name@ == or_default(name_en, "Server "@ + node_id@)
                    && code@ == or_default(country_code, default_country_code())
                    && flag@ == or_default(country_flag, default_country_flag())
            },
            SessionEvent::Received(Frame::Ping) | SessionEvent::Received(Frame::Pong)
            | SessionEvent::Received(Frame::Other) => goes(r, SessionStage::AwaitFirst, SessionAction::Receive),
            _ => closed(r),
        },
        SessionStage::Authenticating { node_id, inbound_tags } => match e {
            SessionEvent::Authenticated(Err(reason)) => goes(
                r,
                SessionStage::Closed,
                SessionAction::SendThenClose(HubMessage::AuthFailed { reason }),
            ),
            SessionEvent::Authenticated(Ok(_)) => goes(
                r,
                SessionStage::ConfirmingAuth { node_id, inbound_tags },
                SessionAction::Send(HubMessage::AuthOk),
            ),
            _ => closed(r),
        },
        SessionStage::ConfirmingAuth { node_id, inbound_tags } => match e {
            SessionEvent::Sent(SendOutcome::Failed) => closed(r),
            SessionEvent::Sent(_) => {
                &&& r.0.stage matches SessionStage::Connected { node_id: n } && n == node_id
                &&& r.1 == (SessionAction::Register { node_id, inbound_tags })
            },
            _ => closed(r),
        },
        SessionStage::Connected { node_id } => match e {
            SessionEvent::Outbound(Some(m)) => goes(
                r,
                SessionStage::ConnectedSending { node_id },
                SessionAction::Send(m),
            ),
            SessionEvent::Tick | SessionEvent::Received(Frame::Text(Ok(NodeMessage::Ping))) => goes(
                r,
                SessionStage::ConnectedSending { node_id },
                SessionAction::Send(HubMessage::Pong),
            ),
            SessionEvent::Received(Frame::Text(Ok(NodeMessage::TrafficReport { user_bytes }))) => {
                &&& r.0.stage == (SessionStage::Connected { node_id })
                &&& r.1 matches SessionAction::HandleReport { node_id: n, user_bytes: b } && n == node_id
                    && b == user_bytes
            },
            SessionEvent::Received(Frame::Text(Ok(NodeMessage::CommandResult { command_id, success, error_message }))) => {
                &&& r.0.stage == (SessionStage::Connected { node_id })
                &&& r.1 == (SessionAction::Resolve { command_id, result: CommandResult { success, error_message } })
            },
            SessionEvent::Received(_) => goes(r, SessionStage::Connected { node_id }, SessionAction::Wait),
            _ => {
                &&& r.0.stage is Closed
                &&& r.1 == (SessionAction::Cleanup { node_id })
            },
        },
        SessionStage::ConnectedSending { node_id } => match e {
            SessionEvent::Sent(SendOutcome::Failed) => {
                &&& r.0.stage is Closed
                &&& r.1 == (SessionAction::Cleanup { node_id })
            },
            SessionEvent::Sent(_) => goes(r, SessionStage::Connected { node_id }, SessionAction::Wait),
            _ => {
                &&& r.0.stage is Closed
                &&& r.1 == (SessionAction::Cleanup { node_id })
            },
        },
        SessionStage::Closed => closed(r),
    }
}

fn or_default_text(v: Option<String>, default: String) -> (r: String)
    ensures
        r@ == or_default(v, default@),
{
    match v {
        Some(s) => {
            if s.as_str().unicode_len() > 0 {
                s
            } else {
                default
            }
        },
        None => default,
    }
}

impl NodeSession {
    /// A new session, waiting for the node's first message.
    pub fn new() -> (r: (NodeSession, SessionAction))
        ensures
            r == (NodeSession { stage: SessionStage::AwaitFirst }, SessionAction::Receive),
    {
        (NodeSession { stage: SessionStage::AwaitFirst }, SessionAction::Receive)
    }

    /// Whether the session is over.
    pub fn closed(&self) -> (r: bool)
        ensures
            r == (self.stage is Closed),
    {
        match self.stage {
            SessionStage::Closed => true,
            _ => false,
        }
    }

    fn close() -> (r: (NodeSession, SessionAction))
        ensures
            closed(r),
    {
        (NodeSession { stage: SessionStage::Closed }, SessionAction::Close)
    }

    fn cleanup(node_id: String) -> (r: (NodeSession, SessionAction))
        ensures
            r.0.stage is Closed,
            r.1 == (SessionAction::Cleanup { node_id }),
    {
        (NodeSession { stage: SessionStage::Closed }, SessionAction::Cleanup { node_id })
    }

    /// Takes the next event.
    pub fn step(self, event: SessionEvent) -> (r: (NodeSession, SessionAction))
        ensures
            session_step(self, event, r),
    {
        match self.stage {
            SessionStage::AwaitFirst => match event {
                SessionEvent::Received(Frame::Text(Ok(msg))) => match msg {
                    NodeMessage::Register {
                        node_id,
                        auth_secret,
                        public_ip,
                        inbound_tags,
                        name_en,
                        country_code,
                        country_flag,
                        xray,
                        hysteria,
                    } => {
                        if node_id.as_str().unicode_len() == 0 || auth_secret.as_str().unicode_len() == 0 {
                            let reason = "Node ID or auth secret is empty".to_string();
                            return (
                                NodeSession { stage: SessionStage::Closed },
                                SessionAction::SendThenClose(HubMessage::AuthFailed { reason }),
                            );
                        }
                        let name = or_default_text(name_en, concat("Server ", node_id.as_str()));
                        let code = or_default_text(country_code, "DE".to_string());
                        let flag = or_default_text(country_flag, "\u{1F310}".to_string());
                        let a = SessionAction::Authenticate {
                            node_id: node_id.clone(),
                            auth_secret,
                            public_ip,
                            name_en: name,
                            country_code: code,
                            country_flag: flag,
                            xray,
                            hysteria,
                        };
                        (NodeSession { stage: SessionStage::Authenticating { node_id, inbound_tags } }, a)
                    },
                    _ => Self::close(),
                },
                SessionEvent::Received(Frame::Ping) | SessionEvent::Received(Frame::Pong)
                | SessionEvent::Received(Frame::Other) => (
                    NodeSession { stage: SessionStage::AwaitFirst },
                    SessionAction::Receive,
                ),
                _ => Self::close(),
            },
            SessionStage::Authenticating { node_id, inbound_tags } => match event {
                SessionEvent::Authenticated(Err(reason)) => (
                    NodeSession { stage: SessionStage::Closed },
                    SessionAction::SendThenClose(HubMessage::AuthFailed { reason }),
                ),
                SessionEvent::Authenticated(Ok(_)) => (
                    NodeSession { stage: SessionStage::ConfirmingAuth { node_id, inbound_tags } },
                    SessionAction::Send(HubMessage::AuthOk),
                ),
                _ => Self::close(),
            },
            SessionStage::ConfirmingAuth { node_id, inbound_tags } => match event {
                SessionEvent::Sent(SendOutcome::Failed) => Self::close(),
                SessionEvent::Sent(_) => {
                    let a = SessionAction::Register { node_id: node_id.clone(), inbound_tags };
                    (NodeSession { stage: SessionStage::Connected { node_id } }, a)
                },
                _ => Self::close(),
            },
            SessionStage::Connected { node_id } => match event {
                SessionEvent::Outbound(Some(m)) => (
                    NodeSession { stage: SessionStage::ConnectedSending { node_id } },
                    SessionAction::Send(m),
                ),
                SessionEvent::Tick => (
                    NodeSession { stage: SessionStage::ConnectedSending { node_id } },
                    SessionAction::Send(HubMessage::Pong),
                ),
                SessionEvent::Received(Frame::Text(Ok(msg))) => match msg {
                    NodeMessage::Ping => (
                        NodeSession { stage: SessionStage::ConnectedSending { node_id } },
                        SessionAction::Send(HubMessage::Pong),
                    ),
                    NodeMessage::TrafficReport { user_bytes } => {
                        let a = SessionAction::HandleReport { node_id: node_id.clone(), user_bytes };
                        (NodeSession { stage: SessionStage::Connected { node_id } }, a)
                    },
                    NodeMessage::CommandResult { command_id, success, error_message } => {
                        let a = SessionAction::Resolve {
                            command_id,
                            result: CommandResult { success, error_message },
                        };
                        (NodeSession { stage: SessionStage::Connected { node_id } }, a)
                    },
                    NodeMessage::Register { .. } => (
                        NodeSession { stage: SessionStage::Connected { node_id } },
                        SessionAction::Wait,
                    ),
                },
                SessionEvent::Received(_) => (
                    NodeSession { stage: SessionStage::Connected { node_id } },
                    SessionAction::Wait,
                ),
                _ => Self::cleanup(node_id),
            },
            SessionStage::ConnectedSending { node_id } => match event {
                SessionEvent::Sent(SendOutcome::Failed) => Self::cleanup(node_id),
                SessionEvent::Sent(_) => (
                    NodeSession { stage: SessionStage::Connected { node_id } },
                    SessionAction::Wait,
                ),
                _ => Self::cleanup(node_id),
            },
            SessionStage::Closed => Self::close(),
        }
    }
}

} // verus!

verus! {

/// A run of a session from its start: `flows[i]` takes `events[i]` and
/// answers `(flows[i + 1], actions[i])`.
pub open spec fn is_session_run(
    flows: Seq<NodeSession>,
    events: Seq<SessionEvent>,
    actions: Seq<SessionAction>,
) -> bool {
    &&& flows.len() == events.len() + 1
    &&& actions.len() == events.len()
    &&& flows[0].stage is AwaitFirst
    &&& forall|i: int|
        0 <= i < events.len() ==> #[trigger] session_step(flows[i], events[i], (flows[i + 1], actions[i]))
}

pub open spec fn is_connected_stage(s: SessionStage) -> bool {
    s is ConfirmingAuth || s is Connected || s is ConnectedSending
}

proof fn lemma_connected_only_after_auth(
    flows: Seq<NodeSession>,
    events: Seq<SessionEvent>,
    actions: Seq<SessionAction>,
    i: int,
)
    requires
        is_session_run(flows, events, actions),
        0 <= i <= events.len(),
        is_connected_stage(flows[i].stage),
    ensures
        exists|j: int| 0 <= j < i && #[trigger] events[j] matches SessionEvent::Authenticated(Ok(_)),
    decreases i,
{
    assert(i > 0);
    let m = i - 1;
    assert(session_step(flows[m], events[m], (flows[m + 1], actions[m])));
    if is_connected_stage(flows[i - 1].stage) {
        lemma_connected_only_after_auth(flows, events, actions, i - 1);
        let j = choose|j: int| 0 <= j < i - 1 && #[trigger] events[j] matches SessionEvent::Authenticated(Ok(_));
        assert(events[j] matches SessionEvent::Authenticated(Ok(_)));
    } else {
        assert(events[i - 1] matches SessionEvent::Authenticated(Ok(_)));
    }
}

/// A node is registered as connected only after it authenticated: every
/// `Register` of a session's run follows a successful authentication.
pub proof fn lemma_register_only_after_auth(
    flows: Seq<NodeSession>,
    events: Seq<SessionEvent>,
    actions: Seq<SessionAction>,
    k: int,
)
    requires
        is_session_run(flows, events, actions),
        0 <= k < actions.len(),
        actions[k] is Register,
    ensures
        exists|j: int| 0 <= j < k && #[trigger] events[j] matches SessionEvent::Authenticated(Ok(_)),
{
    assert(session_step(flows[k], events[k], (flows[k + 1], actions[k])));
    assert(flows[k].stage is ConfirmingAuth);
    lemma_connected_only_after_auth(flows, events, actions, k);
}

/// A node is authenticated only with a non-empty id and secret.
pub proof fn lemma_authenticate_needs_credentials(f: NodeSession, e: SessionEvent, r: (NodeSession, SessionAction))
    requires
        session_step(f, e, r),
        r.1 is Authenticate,
    ensures
        r.1->Authenticate_node_id@.len() > 0,
        r.1->Authenticate_auth_secret@.len() > 0,
{
}

proof fn lemma_stays_connected(
    flows: Seq<NodeSession>,
    events: Seq<SessionEvent>,
    actions: Seq<SessionAction>,
    j: int,
    i: int,
)
    requires
        is_session_run(flows, events, actions),
        0 <= j < i <= events.len(),
        actions[j] matches SessionAction::Register { node_id, .. },
        forall|m: int| j < m < i ==> !is_terminal(#[trigger] actions[m]),
    ensures
        (flows[i].stage matches SessionStage::Connected { node_id } && node_id == actions[j]->Register_node_id)
            || (flows[i].stage matches SessionStage::ConnectedSending { node_id } && node_id
            == actions[j]->Register_node_id),
    decreases i - j,
{
    if i == j + 1 {
        assert(session_step(flows[j], events[j], (flows[j + 1], actions[j])));
    } else {
        lemma_stays_connected(flows, events, actions, j, i - 1);
        let m = i - 1;
        assert(session_step(flows[m], events[m], (flows[m + 1], actions[m])));
        assert(!is_terminal(actions[i - 1]));
    }
}

/// Once a node is registered, its session ends only through cleanup: the
/// first action after `Register` that ends the session unregisters that
/// node and marks it offline.
pub proof fn lemma_registered_session_ends_with_cleanup(
    flows: Seq<NodeSession>,
    events: Seq<SessionEvent>,
    actions: Seq<SessionAction>,
    j: int,
    k: int,
)
    requires
        is_session_run(flows, events, actions),
        0 <= j < k < actions.len(),
        actions[j] is Register,
        is_terminal(actions[k]),
        forall|m: int| j < m < k ==> !is_terminal(#[trigger] actions[m]),
    ensures
        actions[k] == (SessionAction::Cleanup { node_id: actions[j]->Register_node_id }),
{
    lemma_stays_connected(flows, events, actions, j, k);
    assert(session_step(flows[k], events[k], (flows[k + 1], actions[k])));
}

/// On a connected session every message of the node is handed on as sent:
/// a command's answer is resolved with the node's own id, success flag and
/// message; a traffic report is handed over whole, with the session's node;
/// a ping, and each keepalive tick, is answered with `Pong`; a message from
/// the hub is sent as is. When the socket fails or ends, or the hub's channel
/// closes, the node is cleaned up. Anything else is ignored.
pub proof fn lemma_connected_session_forwards(node_id: String, e: SessionEvent, r: (NodeSession, SessionAction))
    requires
        session_step(NodeSession { stage: SessionStage::Connected { node_id } }, e, r),
    ensures
        e matches SessionEvent::Received(
            Frame::Text(Ok(NodeMessage::CommandResult { command_id, success, error_message })),
        ) ==> r.0.stage == (SessionStage::Connected { node_id }) && r.1 == (SessionAction::Resolve {
            command_id,
            result: CommandResult { success, error_message },
        }),
        e matches SessionEvent::Received(Frame::Text(Ok(NodeMessage::TrafficReport { user_bytes })))
            ==> r.0.stage == (SessionStage::Connected { node_id }) && r.1 == (SessionAction::HandleReport {
            node_id,
            user_bytes,
        }),
        (e == SessionEvent::Received(Frame::Text(Ok(NodeMessage::Ping))) || e == SessionEvent::Tick) ==> r.0.stage
            == (SessionStage::ConnectedSending { node_id }) && r.1 == SessionAction::Send(HubMessage::Pong),
        e matches SessionEvent::Outbound(Some(m)) ==> r.0.stage == (SessionStage::ConnectedSending { node_id })
            && r.1 == SessionAction::Send(m),
        (e == SessionEvent::Outbound(None) || e == SessionEvent::ReadFailed || e == SessionEvent::StreamEnded)
            ==> r.0.stage is Closed && r.1 == (SessionAction::Cleanup { node_id }),
        (e matches SessionEvent::Received(f) && !(f matches Frame::Text(Ok(m)) && !(m is Register))) ==> r.0.stage
            == (SessionStage::Connected { node_id }) && r.1 == SessionAction::Wait,
{
}

/// A node's first message is a registration: with an empty id or secret the
/// node is refused and the session ends; otherwise the node is authenticated
/// with exactly the id, secret, address and inbound settings it sent, its
/// display name defaulting to `Server <id>`, its country to `DE` and its flag
/// to a globe.
pub proof fn lemma_first_message_authenticates(
    node_id: String,
    auth_secret: String,
    public_ip: String,
    inbound_tags: Vec<String>,
    name_en: Option<String>,
    country_code: Option<String>,
    country_flag: Option<String>,
    xray: Option<XrayConfig>,
    hysteria: Option<HysteriaConfig>,
    r: (NodeSession, SessionAction),
)
    requires
        session_step(
            NodeSession { stage: SessionStage::AwaitFirst },
            SessionEvent::Received(
                Frame::Text(
                    Ok(
                        NodeMessage::Register {
                            node_id,
                            auth_secret,
                            public_ip,
                            inbound_tags,
                            name_en,
                            country_code,
                            country_flag,
                            xray,
                            hysteria,
                        },
                    ),
                ),
            ),
            r,
        ),
    ensures
        (node_id@.len() == 0 || auth_secret@.len() == 0) ==> r.0.stage is Closed && (r.1 matches SessionAction::SendThenClose(
            HubMessage::AuthFailed { reason },
        ) && reason@ == "Node ID or auth secret is empty"@),
        (node_id@.len() > 0 && auth_secret@.len() > 0) ==> {
            &&& r.0.stage == (SessionStage::Authenticating { node_id, inbound_tags })
            &&& r.1 matches SessionAction::Authenticate {
                node_id: n,
                auth_secret: s,
                public_ip: ip,
                name_en: name,
                country_code: code,
                country_flag: flag,
                xray: x,
                hysteria: h,
            }
            &&& r.1->Authenticate_node_id == node_id
            &&& r.1->Authenticate_auth_secret == auth_secret
            &&& r.1->Authenticate_public_ip == public_ip
            &&& r.1->Authenticate_xray == xray
            &&& r.1->Authenticate_hysteria == hysteria
            &&& r.1->Authenticate_name_en@ == (match name_en {
                Some(v) if v@.len() > 0 => v@,
                _ => "Server "@ + node_id@,
            })
            &&& r.1->Authenticate_country_code@ == (match country_code {
                Some(v) if v@.len() > 0 => v@,
                _ => "DE"@,
            })
            &&& r.1->Authenticate_country_flag@ == (match country_flag {
                Some(v) if v@.len() > 0 => v@,
                _ => "\u{1F310}"@,
            })
        },
{
}

/// A failed authentication is answered `AuthFailed` with its reason and ends
/// the session; a successful one is confirmed with `AuthOk`, and once that
/// is sent the node is registered with the inbound tags of its first message.
pub proof fn lemma_auth_outcome(
    node_id: String,
    inbound_tags: Vec<String>,
    auth: Result<(), String>,
    r1: (NodeSession, SessionAction),
    sent: SendOutcome,
    r2: (NodeSession, SessionAction),
)
    requires
        session_step(
            NodeSession { stage: SessionStage::Authenticating { node_id, inbound_tags } },
            SessionEvent::Authenticated(auth),
            r1,
        ),
        auth is Ok ==> session_step(r1.0, SessionEvent::Sent(sent), r2),
    ensures
        auth matches Err(reason) ==> r1.0.stage is Closed && r1.1 == SessionAction::SendThenClose(
            HubMessage::AuthFailed { reason },
        ),
        auth is Ok ==> r1.1 == SessionAction::Send(HubMessage::AuthOk),
        (auth is Ok && sent != SendOutcome::Failed) ==> r2.0.stage == (SessionStage::Connected { node_id })
            && r2.1 == (SessionAction::Register { node_id, inbound_tags }),
        (auth is Ok && sent == SendOutcome::Failed) ==> r2.0.stage is Closed && r2.1 is Close,
{
}

/// While a message to a connected node is being sent, a failed send cleans
/// the node up and ends the session; any other outcome goes back to waiting,
/// and anything else that happens then also ends the session with cleanup.
pub proof fn lemma_send_outcome(node_id: String, e: SessionEvent, r: (NodeSession, SessionAction))
    requires
        session_step(NodeSession { stage: SessionStage::ConnectedSending { node_id } }, e, r),
    ensures
        e matches SessionEvent::Sent(o) && o != SendOutcome::Failed ==> r.0.stage == (SessionStage::Connected {
            node_id,
        }) && r.1 == SessionAction::Wait,
        !(e matches SessionEvent::Sent(o) && o != SendOutcome::Failed) ==> r.0.stage is Closed && r.1 == (SessionAction::Cleanup {
            node_id,
        }),
{
}

} // verus!
