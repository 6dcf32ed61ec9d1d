//! Sending a command to a connected node and waiting for its answer, and
//! adding a user to a node.

use vstd::prelude::*;

use crate::error::AppError;
use crate::interop::{new_uuid_v4, uuid_text, uuid_to_string};
use crate::text::concat;
use super::messages::{CommandResult, HubMessage};

verus! {

/// Why a command to a node failed.
#[derive(Debug, Clone, PartialEq, Eq)]
pub enum CommanderError {
    NodeNotConnected(String),
    NodeRejected(String),
    Timeout,
    SendError,
    Internal(String),
}

impl CommanderError {
    pub open spec fn spec_message(self) -> Seq<char> {
        match self {
            CommanderError::NodeNotConnected(n) => "Node "@ + n@ + " is not connected"@,
            CommanderError::NodeRejected(m) => "Node rejected the action: "@ + m@,
            CommanderError::Timeout => "Command execution timed out"@,
            CommanderError::SendError => "Failed to send command over gRPC channel"@,
            CommanderError::Internal(m) => "Internal error: "@ + m@,
        }
    }

    /// The error's text (what `Display` writes).
    pub fn message(&self) -> (r: String)
        ensures
            r@ == self.spec_message(),
    {
        match self {
            CommanderError::NodeNotConnected(n) => {
                let a = concat("Node ", n.as_str());
                concat(a.as_str(), " is not connected")
            },
            CommanderError::NodeRejected(m) => concat("Node rejected the action: ", m.as_str()),
            CommanderError::Timeout => "Command execution timed out".to_string(),
            CommanderError::SendError => "Failed to send command over gRPC channel".to_string(),
            CommanderError::Internal(m) => concat("Internal error: ", m.as_str()),
        }
    }
}

/// Seconds to wait for a node's answer.
pub const COMMAND_TIMEOUT_SECS: u64 = 10;

/// The commands a node takes.
#[derive(Debug, Clone, Copy, PartialEq, Eq, Structural)]
pub enum CommandKind {
    AddUser,
    RemoveUser,
}

/// `m` is the message of command `kind` with id `command_id` for the user
/// `user_uuid` on the inbounds `tags`.
pub open spec fn is_command_message(
    m: HubMessage,
    kind: CommandKind,
    command_id: Seq<char>,
    user_uuid: Seq<char>,
    tags: Vec<String>,
) -> bool {
    match kind {
        CommandKind::AddUser => m matches HubMessage::AddUser { command_id: c, uuid, inbound_tags }
            && c@ == command_id && uuid@ == user_uuid && inbound_tags == tags,
        CommandKind::RemoveUser => m matches HubMessage::RemoveUser { command_id: c, email, inbound_tags }
            && c@ == command_id && email@ == user_uuid && inbound_tags == tags,
    }
}

/// The next thing the caller must do on behalf of a command.
#[derive(Debug)]
pub enum CommandAction {
    /// Record `command_id` as awaiting an answer, then send `message` on
    /// the node's channel.
    Dispatch { command_id: String, message: HubMessage },
    /// Wait up to `timeout_secs` for the answer to `command_id`.
    AwaitReply { command_id: String, timeout_secs: u64 },
    /// The command is over; if `forget` names a command, drop its record
    /// of awaiting an answer first.
    Finish { result: Result<bool, CommanderError>, forget: Option<String> },
}

/// The outcome of the last requested action.
#[derive(Debug)]
pub enum CommandEvent {
    /// Whether the node's channel took the message.
    Dispatched(bool),
    /// The node answered (its answer was handed over, and its record dropped).
    ReplyReceived(CommandResult),
    /// The answer's sender went away without answering.
    ReplySenderDropped,
    /// No answer came in time.
    ReplyTimedOut,
}

#[derive(Debug)]
pub enum CommandStage {
    AwaitDispatch { command_id: String },
    AwaitReply { command_id: String },
    Finished,
}

/// A command sent to one node.
#[derive(Debug)]
pub struct CommandFlow {
    pub stage: CommandStage,
}

pub open spec fn command_finished(r: Result<bool, CommanderError>, forget: Option<String>) -> (
    CommandFlow,
    CommandAction,
) {
    (CommandFlow { stage: CommandStage::Finished }, CommandAction::Finish { result: r, forget })
}

/// `r` ends the command with an internal error whose text is `m`,
/// dropping the record of `forget`.
pub open spec fn ends_internal(r: (CommandFlow, CommandAction), m: Seq<char>, forget: Option<String>) -> bool {
    &&& r.0.stage is Finished
    &&& r.1 matches CommandAction::Finish { result: Err(CommanderError::Internal(s)), forget: f }
        && s@ == m && f == forget
}

/// The command's decision after outcome `e`, as a relation on the answer
/// `r`. An outcome that the state does not wait for ends with an internal
/// error.
pub open spec fn command_step(f: CommandFlow, e: CommandEvent, r: (CommandFlow, CommandAction)) -> bool {
    match f.stage {
        CommandStage::AwaitDispatch { command_id } => match e {
            CommandEvent::Dispatched(false) => r == command_finished(
                Err(CommanderError::SendError),
                Some(command_id),
            ),
            CommandEvent::Dispatched(true) => r == (
                CommandFlow { stage: CommandStage::AwaitReply { command_id } },
                CommandAction::AwaitReply { command_id, timeout_secs: COMMAND_TIMEOUT_SECS },
            ),
            _ => ends_internal(r, "Unexpected command event"@, Some(command_id)),
        },
        CommandStage::AwaitReply { command_id } => match e {
            CommandEvent::ReplyReceived(res) => if res.success {
                r == command_finished(Ok(true), None)
            } else {
                r == command_finished(Err(CommanderError::NodeRejected(res.error_message)), None)
            },
            CommandEvent::ReplySenderDropped => ends_internal(r, "Oneshot sender dropped"@, None),
            CommandEvent::ReplyTimedOut => r == command_finished(
                Err(CommanderError::Timeout),
                Some(command_id),
            ),
            _ => ends_internal(r, "Unexpected command event"@, Some(command_id)),
        },
        CommandStage::Finished => ends_internal(r, "Unexpected command event"@, None),
    }
}

impl CommandFlow {
    /// Begins a command with id `command_id`. `inbound_tags` are the tags
    /// of the node's connection, or `None` when the node is not connected.
    pub fn start_with_id(
        kind: CommandKind,
        node_id: &str,
        user_uuid: &str,
        inbound_tags: Option<Vec<String>>,
        command_id: String,
    ) -> (r: (CommandFlow, CommandAction))
        ensures
            match inbound_tags {
                None => r.0.stage is Finished && (r.1 matches CommandAction::Finish {
                    result: Err(CommanderError::NodeNotConnected(n)),
                    forget: None,
                } && n@ == node_id@),
                Some(tags) => {
                    &&& r.0.stage == (CommandStage::AwaitDispatch { command_id })
                    &&& r.1 matches CommandAction::Dispatch { command_id: c, message } && c == command_id
                        && is_command_message(message, kind, command_id@, user_uuid@, tags)
                },
            },
    {
        match inbound_tags {
            None => (
                CommandFlow { stage: CommandStage::Finished },
                CommandAction::Finish {
                    result: Err(CommanderError::NodeNotConnected(node_id.to_string())),
                    forget: None,
                },
            ),
            Some(tags) => {
                let message = match kind {
                    CommandKind::AddUser => HubMessage::AddUser {
                        command_id: command_id.clone(),
                        uuid: user_uuid.to_string(),
                        inbound_tags: tags,
                    },
                    CommandKind::RemoveUser => HubMessage::RemoveUser {
                        command_id: command_id.clone(),
                        email: user_uuid.to_string(),
                        inbound_tags: tags,
                    },
                };
                let a = CommandAction::Dispatch { command_id: command_id.clone(), message };
                (CommandFlow { stage: CommandStage::AwaitDispatch { command_id } }, a)
            },
        }
    }

    /// Begins a command with a fresh random UUID as its id.
    pub fn start(kind: CommandKind, node_id: &str, user_uuid: &str, inbound_tags: Option<Vec<String>>) -> (r: (
        CommandFlow,
        CommandAction,
    ))
        ensures
            match inbound_tags {
                None => r.0.stage is Finished && (r.1 matches CommandAction::Finish {
                    result: Err(CommanderError::NodeNotConnected(n)),
                    forget: None,
                } && n@ == node_id@),
                Some(tags) => exists|id: u128|
                    #![trigger uuid_text(id)]
                    {
                        &&& r.0.stage matches CommandStage::AwaitDispatch { command_id } && command_id@
                            == uuid_text(id)
                        &&& r.1 matches CommandAction::Dispatch { command_id: c, message } && c@
                            == uuid_text(id) && is_command_message(message, kind, uuid_text(id), user_uuid@, tags)
                    },
            },
    {
        let v = new_uuid_v4();
        let command_id = uuid_to_string(v);
        Self::start_with_id(kind, node_id, user_uuid, inbound_tags, command_id)
    }

    /// Whether the command is over.
    pub fn finished(&self) -> (r: bool)
        ensures
            r == (self.stage is Finished),
    {
        match self.stage {
            CommandStage::Finished => true,
            _ => false,
        }
    }

    /// Takes the outcome of the last requested action.
    pub fn step(self, event: CommandEvent) -> (r: (CommandFlow, CommandAction))
        ensures
            command_step(self, event, r),
    {
        match self.stage {
            CommandStage::AwaitDispatch { command_id } => match event {
                CommandEvent::Dispatched(false) => Self::finish(
                    Err(CommanderError::SendError),
                    Some(command_id),
                ),
                CommandEvent::Dispatched(true) => {
                    let a = CommandAction::AwaitReply {
                        command_id: command_id.clone(),
                        timeout_secs: COMMAND_TIMEOUT_SECS,
                    };
                    (CommandFlow { stage: CommandStage::AwaitReply { command_id } }, a)
                },
                _ => Self::finish(
                    Err(CommanderError::Internal("Unexpected command event".to_string())),
                    Some(command_id),
                ),
            },
            CommandStage::AwaitReply { command_id } => match event {
                CommandEvent::ReplyReceived(res) => {
                    if res.success {
                        Self::finish(Ok(true), None)
                    } else {
                        Self::finish(Err(CommanderError::NodeRejected(res.error_message)), None)
                    }
                },
                CommandEvent::ReplySenderDropped => Self::finish(
                    Err(CommanderError::Internal("Oneshot sender dropped".to_string())),
                    None,
                ),
                CommandEvent::ReplyTimedOut => Self::finish(
                    Err(CommanderError::Timeout),
                    Some(command_id),
                ),
                _ => Self::finish(
                    Err(CommanderError::Internal("Unexpected command event".to_string())),
                    Some(command_id),
                ),
            },
            CommandStage::Finished => Self::finish(
                Err(CommanderError::Internal("Unexpected command event".to_string())),
                None,
            ),
        }
    }

    fn finish(r: Result<bool, CommanderError>, forget: Option<String>) -> (res: (CommandFlow, CommandAction))
        ensures
            res == command_finished(r, forget),
    {
        (CommandFlow { stage: CommandStage::Finished }, CommandAction::Finish { result: r, forget })
    }
}

/// A command never leaves its record of awaiting an answer behind: when it
/// ends before the node's answer was handed over (the send failed, the wait
/// timed out, or an outcome came out of turn), the finish drops the record;
/// the answer's delivery drops it otherwise.
pub proof fn lemma_pending_record_released(f: CommandFlow, e: CommandEvent, r: (CommandFlow, CommandAction))
    requires
        command_step(f, e, r),
        r.1 is Finish,
    ensures
        match f.stage {
            CommandStage::AwaitDispatch { command_id } => r.1->Finish_forget == Some(command_id),
            CommandStage::AwaitReply { command_id } => r.1->Finish_forget == Some(command_id)
                || e is ReplyReceived || e is ReplySenderDropped,
            CommandStage::Finished => r.1->Finish_forget is None,
        },
{
}

} // verus!

verus! {

/// The application error for a failed add-user command: a disconnected
/// node, a refusal or a timeout are validation errors with a text; anything
/// else is internal.
pub open spec fn is_add_user_error(e: CommanderError, r: AppError) -> bool {
    match e {
        CommanderError::NodeNotConnected(_) => r matches AppError::ValidationError(m) && m@
            == e.spec_message(),
        CommanderError::NodeRejected(msg) => r matches AppError::ValidationError(m) && m@
            == "Node rejected: "@ + msg@,
        CommanderError::Timeout => r matches AppError::ValidationError(m) && m@
            == "Timeout waiting for node"@,
        _ => r == AppError::InternalError,
    }
}

pub fn add_user_error(e: CommanderError) -> (r: AppError)
    ensures
        is_add_user_error(e, r),
{
    match &e {
        CommanderError::NodeNotConnected(_) => AppError::ValidationError(e.message()),
        CommanderError::NodeRejected(msg) => AppError::ValidationError(concat("Node rejected: ", msg.as_str())),
        CommanderError::Timeout => AppError::ValidationError("Timeout waiting for node".to_string()),
        _ => AppError::InternalError,
    }
}

/// The next thing the caller must do on behalf of adding a user to a node.
#[derive(Debug)]
pub enum AddUserAction {
    /// Read the user's remaining traffic.
    GetRemaining { user_uuid: String },
    /// Send the add-user command to the node.
    ExecuteAddUser { node_id: String, user_uuid: String },
    Finish(Result<(), AppError>),
}

#[derive(Debug)]
pub enum AddUserEvent {
    RemainingRead(Result<u64, AppError>),
    Executed(Result<bool, CommanderError>),
}

#[derive(Debug)]
pub enum AddUserStage {
    AwaitRemaining,
    AwaitExecute,
    Finished,
}

/// Adding a user to a node; a user without traffic is refused.
#[derive(Debug)]
pub struct AddUserToNodeFlow {
    pub node_id: String,
    pub user_uuid: String,
    pub stage: AddUserStage,
}

pub open spec fn add_user_at(f: AddUserToNodeFlow, stage: AddUserStage, a: AddUserAction) -> (
    AddUserToNodeFlow,
    AddUserAction,
) {
    (AddUserToNodeFlow { node_id: f.node_id, user_uuid: f.user_uuid, stage }, a)
}

/// The decision after outcome `e`, as a relation on the answer `r`. An
/// outcome that the state does not wait for ends with an internal error.
pub open spec fn add_user_step(f: AddUserToNodeFlow, e: AddUserEvent, r: (AddUserToNodeFlow, AddUserAction)) -> bool {
    let done = |res: Result<(), AppError>| add_user_at(f, AddUserStage::Finished, AddUserAction::Finish(res));
    match f.stage {
        AddUserStage::AwaitRemaining => match e {
            AddUserEvent::RemainingRead(Err(err)) => r == done(Err(err)),
            AddUserEvent::RemainingRead(Ok(0)) => r == done(Err(AppError::TrafficExhausted)),
            AddUserEvent::RemainingRead(Ok(_)) => r == add_user_at(
                f,
                AddUserStage::AwaitExecute,
                AddUserAction::ExecuteAddUser { node_id: f.node_id, user_uuid: f.user_uuid },
            ),
            _ => r == done(Err(AppError::InternalError)),
        },
        AddUserStage::AwaitExecute => match e {
            AddUserEvent::Executed(Ok(true)) => r == done(Ok(())),
            AddUserEvent::Executed(Ok(false)) => r == done(Err(AppError::NodeRejectedAction)),
            AddUserEvent::Executed(Err(ce)) => {
                &&& r.0 == AddUserToNodeFlow { node_id: f.node_id, user_uuid: f.user_uuid, stage: AddUserStage::Finished }
                &&& r.1 matches AddUserAction::Finish(Err(ae)) && is_add_user_error(ce, ae)
            },
            _ => r == done(Err(AppError::InternalError)),
        },
        AddUserStage::Finished => r == done(Err(AppError::InternalError)),
    }
}

impl AddUserToNodeFlow {
    pub fn start(node_id: String, user_uuid: String) -> (r: (AddUserToNodeFlow, AddUserAction))
        ensures
            r.0 == (AddUserToNodeFlow { node_id, user_uuid, stage: AddUserStage::AwaitRemaining }),
            r.1 == (AddUserAction::GetRemaining { user_uuid }),
    {
        let a = AddUserAction::GetRemaining { user_uuid: user_uuid.clone() };
        (AddUserToNodeFlow { node_id, user_uuid, stage: AddUserStage::AwaitRemaining }, a)
    }

    pub fn finished(&self) -> (r: bool)
        ensures
            r == (self.stage is Finished),
    {
        match self.stage {
            AddUserStage::Finished => true,
            _ => false,
        }
    }

    pub fn step(self, event: AddUserEvent) -> (r: (AddUserToNodeFlow, AddUserAction))
        ensures
            add_user_step(self, event, r),
    {
        let node_id = self.node_id;
        let user_uuid = self.user_uuid;
        match self.stage {
            AddUserStage::AwaitRemaining => match event {
                AddUserEvent::RemainingRead(Err(err)) => Self::finish(node_id, user_uuid, Err(err)),
                AddUserEvent::RemainingRead(Ok(remaining)) => {
                    if remaining == 0 {
                        Self::finish(node_id, user_uuid, Err(AppError::TrafficExhausted))
                    } else {
                        let a = AddUserAction::ExecuteAddUser {
                            node_id: node_id.clone(),
                            user_uuid: user_uuid.clone(),
                        };
                        (AddUserToNodeFlow { node_id, user_uuid, stage: AddUserStage::AwaitExecute }, a)
                    }
                },
                _ => Self::finish(node_id, user_uuid, Err(AppError::InternalError)),
            },
            AddUserStage::AwaitExecute => match event {
                AddUserEvent::Executed(Ok(true)) => Self::finish(node_id, user_uuid, Ok(())),
                AddUserEvent::Executed(Ok(false)) => Self::finish(
                    node_id,
                    user_uuid,
                    Err(AppError::NodeRejectedAction),
                ),
                AddUserEvent::Executed(Err(ce)) => Self::finish(node_id, user_uuid, Err(add_user_error(ce))),
                _ => Self::finish(node_id, user_uuid, Err(AppError::InternalError)),
            },
            AddUserStage::Finished => Self::finish(node_id, user_uuid, Err(AppError::InternalError)),
        }
    }

    fn finish(node_id: String, user_uuid: String, r: Result<(), AppError>) -> (res: (
        AddUserToNodeFlow,
        AddUserAction,
    ))
        ensures
            res == (AddUserToNodeFlow { node_id, user_uuid, stage: AddUserStage::Finished }, AddUserAction::Finish(r)),
    {
        (AddUserToNodeFlow { node_id, user_uuid, stage: AddUserStage::Finished }, AddUserAction::Finish(r))
    }
}

/// Adding a user to a node: a user with no traffic left is refused with
/// `TrafficExhausted`, a failed read ends with its error, and otherwise the
/// add-user command is requested for exactly the node and user that the
/// adding was started with. Every step keeps that node and user.
pub proof fn lemma_add_user_targets_its_node_and_user(
    node_id: String,
    user_uuid: String,
    read: Result<u64, AppError>,
    r: (AddUserToNodeFlow, AddUserAction),
)
    requires
        add_user_step(
            AddUserToNodeFlow { node_id, user_uuid, stage: AddUserStage::AwaitRemaining },
            AddUserEvent::RemainingRead(read),
            r,
        ),
    ensures
        r.0.node_id == node_id,
        r.0.user_uuid == user_uuid,
        match read {
            Err(err) => r.0.stage is Finished && r.1 == AddUserAction::Finish(Err(err)),
            Ok(n) => if n == 0 {
                r.0.stage is Finished && r.1 == AddUserAction::Finish(Err(AppError::TrafficExhausted))
            } else {
                r.0.stage is AwaitExecute && r.1 == (AddUserAction::ExecuteAddUser { node_id, user_uuid })
            },
        },
{
}

/// The outcome of the add-user command decides the answer: an accepted
/// command succeeds, a refused one is `NodeRejectedAction`; a disconnected
/// node, a refusal with a message and a timeout become validation errors
/// with their text, and any other failure is internal. Every outcome ends
/// the adding.
pub proof fn lemma_add_user_answers_the_command(
    f: AddUserToNodeFlow,
    outcome: Result<bool, CommanderError>,
    r: (AddUserToNodeFlow, AddUserAction),
)
    requires
        f.stage is AwaitExecute,
        add_user_step(f, AddUserEvent::Executed(outcome), r),
    ensures
        r.0.stage is Finished,
        r.0.node_id == f.node_id,
        r.0.user_uuid == f.user_uuid,
        match outcome {
            Ok(true) => r.1 == AddUserAction::Finish(Ok(())),
            Ok(false) => r.1 == AddUserAction::Finish(Err(AppError::NodeRejectedAction)),
            Err(CommanderError::NodeNotConnected(n)) => r.1 matches AddUserAction::Finish(
                Err(AppError::ValidationError(m)),
            ) && m@ == "Node "@ + n@ + " is not connected"@,
            Err(CommanderError::NodeRejected(msg)) => r.1 matches AddUserAction::Finish(
                Err(AppError::ValidationError(m)),
            ) && m@ == "Node rejected: "@ + msg@,
            Err(CommanderError::Timeout) => r.1 matches AddUserAction::Finish(Err(AppError::ValidationError(m)))
                && m@ == "Timeout waiting for node"@,
            Err(_) => r.1 == AddUserAction::Finish(Err(AppError::InternalError)),
        },
{
}

/// A command's answer decides its result: a node's acceptance is `Ok(true)`,
/// its refusal carries the node's message, and a timeout or failed send is
/// reported as such (dropping the record of the command).
pub proof fn lemma_command_result_follows_reply(
    command_id: String,
    e: CommandEvent,
    r: (CommandFlow, CommandAction),
)
    requires
        command_step(CommandFlow { stage: CommandStage::AwaitReply { command_id } }, e, r),
    ensures
        e matches CommandEvent::ReplyReceived(res) ==> r.1 == (if res.success {
            CommandAction::Finish { result: Ok(true), forget: None }
        } else {
            CommandAction::Finish { result: Err(CommanderError::NodeRejected(res.error_message)), forget: None }
        }),
        e is ReplyTimedOut ==> r.1 == (CommandAction::Finish {
            result: Err(CommanderError::Timeout),
            forget: Some(command_id),
        }),
        r.1 matches CommandAction::Finish { result: Ok(_), .. } ==> e matches CommandEvent::ReplyReceived(res)
            && res.success,
{
}

/// A dispatched command waits for its reply within the time limit; one
/// whose send failed ends with `SendError` and drops its record.
pub proof fn lemma_dispatch_outcome(command_id: String, sent: bool, r: (CommandFlow, CommandAction))
    requires
        command_step(
            CommandFlow { stage: CommandStage::AwaitDispatch { command_id } },
            CommandEvent::Dispatched(sent),
            r,
        ),
    ensures
        sent ==> r.1 == (CommandAction::AwaitReply { command_id, timeout_secs: COMMAND_TIMEOUT_SECS }),
        !sent ==> r.1 == (CommandAction::Finish { result: Err(CommanderError::SendError), forget: Some(command_id) }),
{
}

} // verus!
