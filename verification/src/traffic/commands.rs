//! Adding, subtracting and setting a user's traffic.

use vstd::prelude::*;

use crate::error::AppError;
use crate::text::trim;
use super::model::{TrafficPacket, TrafficSummary};

verus! {

/// Adds a new traffic packet of a given size for a user, valid 30 days.
pub struct AddTrafficCommand;

pub open spec fn add_bytes_error() -> Seq<char> {
    "Traffic bytes must be greater than zero"@
}

impl AddTrafficCommand {
    pub fn new() -> (r: AddTrafficCommand) {
        AddTrafficCommand
    }

    /// Only a positive size may be added; the store's `add_packet` is called
    /// only when this accepts.
    pub fn check(&self, bytes: i64) -> (r: Result<(), AppError>)
        ensures
            bytes > 0 ==> r is Ok,
            bytes <= 0 ==> (r matches Err(AppError::ValidationError(m)) && m@ == add_bytes_error()),
    {
        if bytes <= 0 {
            return Err(AppError::ValidationError("Traffic bytes must be greater than zero".to_string()));
        }
        Ok(())
    }
}

/// The next thing the caller must do on behalf of a traffic change.
#[derive(Debug)]
pub enum TrafficAction {
    /// Read the user's remaining bytes over active packets.
    GetRemaining { user_id: String },
    /// Add a packet of `bytes` for the user.
    AddPacket { user_id: String, bytes: i64 },
    /// Deduct `bytes` from the user's active packets.
    Consume { user_id: String, bytes: u64 },
    /// Read the user's traffic summary.
    GetSummary { user_id: String },
    /// The change is over.
    Finish(Result<TrafficSummary, AppError>),
}

/// The outcome of the last requested action.
#[derive(Debug)]
pub enum TrafficEvent {
    RemainingRead(Result<u64, AppError>),
    PacketAdded(Result<TrafficPacket, AppError>),
    Consumed(Result<u64, AppError>),
    SummaryRead(Result<TrafficSummary, AppError>),
}

/// Where a traffic change stands.
#[derive(Debug)]
pub enum TrafficStage {
    /// Setting the remaining traffic to `target`: waits for the current one.
    AwaitRemaining { target: u64 },
    /// Waits for the packet to be added or the bytes to be consumed.
    AwaitAdjustment,
    AwaitSummary,
    Finished,
}

/// A change of one user's traffic.
#[derive(Debug)]
pub struct TrafficFlow {
    pub user_id: String,
    pub stage: TrafficStage,
}

/// How setting the remaining traffic from `remaining` to `target` adjusts it.
pub enum Adjustment {
    Keep,
    Add(i64),
    Consume(u64),
}

/// Setting: a larger target adds the difference as a packet (the difference
/// is cast to `i64`, as the store takes it), a smaller one consumes it.
pub open spec fn set_adjustment(remaining: u64, target: u64) -> Adjustment {
    if target > remaining {
        Adjustment::Add((target - remaining) as i64)
    } else if target < remaining {
        Adjustment::Consume((remaining - target) as u64)
    } else {
        Adjustment::Keep
    }
}

pub open spec fn traffic_at(user: String, stage: TrafficStage, a: TrafficAction) -> (
    TrafficFlow,
    TrafficAction,
) {
    (TrafficFlow { user_id: user, stage }, a)
}

pub open spec fn traffic_finished(user: String, r: Result<TrafficSummary, AppError>) -> (
    TrafficFlow,
    TrafficAction,
) {
    traffic_at(user, TrafficStage::Finished, TrafficAction::Finish(r))
}

pub open spec fn read_summary(user: String) -> (TrafficFlow, TrafficAction) {
    traffic_at(user, TrafficStage::AwaitSummary, TrafficAction::GetSummary { user_id: user })
}

/// The decision after outcome `e`. An outcome that the state does not wait
/// for ends the change with an internal error.
pub open spec fn traffic_next(f: TrafficFlow, e: TrafficEvent) -> (TrafficFlow, TrafficAction) {
    let user = f.user_id;
    match f.stage {
        TrafficStage::AwaitRemaining { target } => match e {
            TrafficEvent::RemainingRead(Err(err)) => traffic_finished(user, Err(err)),
            TrafficEvent::RemainingRead(Ok(remaining)) => match set_adjustment(remaining, target) {
                Adjustment::Add(d) => traffic_at(
                    user,
                    TrafficStage::AwaitAdjustment,
                    TrafficAction::AddPacket { user_id: user, bytes: d },
                ),
                Adjustment::Consume(d) => traffic_at(
                    user,
                    TrafficStage::AwaitAdjustment,
                    TrafficAction::Consume { user_id: user, bytes: d },
                ),
                Adjustment::Keep => read_summary(user),
            },
            _ => traffic_finished(user, Err(AppError::InternalError)),
        },
        TrafficStage::AwaitAdjustment => match e {
            TrafficEvent::PacketAdded(Err(err)) => traffic_finished(user, Err(err)),
            TrafficEvent::Consumed(Err(err)) => traffic_finished(user, Err(err)),
            TrafficEvent::PacketAdded(Ok(_)) => read_summary(user),
            TrafficEvent::Consumed(Ok(_)) => read_summary(user),
            _ => traffic_finished(user, Err(AppError::InternalError)),
        },
        TrafficStage::AwaitSummary => match e {
            TrafficEvent::SummaryRead(r) => traffic_finished(user, r),
            _ => traffic_finished(user, Err(AppError::InternalError)),
        },
        TrafficStage::Finished => traffic_finished(user, Err(AppError::InternalError)),
    }
}

pub open spec fn subtract_bytes_error() -> Seq<char> {
    "Traffic bytes to subtract must be greater than zero"@
}

impl TrafficFlow {
    /// Begins setting the user's remaining traffic to `target_bytes`.
    pub fn set(user_id: String, target_bytes: u64) -> (r: (TrafficFlow, TrafficAction))
        ensures
            r == traffic_at(
                user_id,
                TrafficStage::AwaitRemaining { target: target_bytes },
                TrafficAction::GetRemaining { user_id },
            ),
    {
        let a = TrafficAction::GetRemaining { user_id: user_id.clone() };
        (TrafficFlow { user_id, stage: TrafficStage::AwaitRemaining { target: target_bytes } }, a)
    }

    /// Begins subtracting `bytes` from the user's traffic; zero is refused.
    pub fn subtract(user_id: String, bytes: u64) -> (r: (TrafficFlow, TrafficAction))
        ensures
            r.0.user_id == user_id,
            bytes == 0 ==> r.0.stage is Finished && (r.1 matches TrafficAction::Finish(
                Err(AppError::ValidationError(m)),
            ) && m@ == subtract_bytes_error()),
            bytes > 0 ==> r == traffic_at(
                user_id,
                TrafficStage::AwaitAdjustment,
                TrafficAction::Consume { user_id, bytes },
            ),
    {
        if bytes == 0 {
            let e = AppError::ValidationError(
                "Traffic bytes to subtract must be greater than zero".to_string(),
            );
            return (TrafficFlow { user_id, stage: TrafficStage::Finished }, TrafficAction::Finish(Err(e)));
        }
        let a = TrafficAction::Consume { user_id: user_id.clone(), bytes };
        (TrafficFlow { user_id, stage: TrafficStage::AwaitAdjustment }, a)
    }

    /// Whether the change is over.
    pub fn finished(&self) -> (r: bool)
        ensures
            r == (self.stage is Finished),
    {
        match self.stage {
            TrafficStage::Finished => true,
            _ => false,
        }
    }

    /// Takes the outcome of the last requested action.
    pub fn step(self, event: TrafficEvent) -> (r: (TrafficFlow, TrafficAction))
        ensures
            r == traffic_next(self, event),
    {
        let user = self.user_id;
        match self.stage {
            TrafficStage::AwaitRemaining { target } => match event {
                TrafficEvent::RemainingRead(Err(err)) => Self::finish(user, Err(err)),
                TrafficEvent::RemainingRead(Ok(remaining)) => {
                    if target > remaining {
                        let d = (target - remaining) as i64;
                        let a = TrafficAction::AddPacket { user_id: user.clone(), bytes: d };
                        (TrafficFlow { user_id: user, stage: TrafficStage::AwaitAdjustment }, a)
                    } else if target < remaining {
                        let d = remaining - target;
                        let a = TrafficAction::Consume { user_id: user.clone(), bytes: d };
                        (TrafficFlow { user_id: user, stage: TrafficStage::AwaitAdjustment }, a)
                    } else {
                        Self::summary(user)
                    }
                },
                _ => Self::finish(user, Err(AppError::InternalError)),
            },
            TrafficStage::AwaitAdjustment => match event {
                TrafficEvent::PacketAdded(Err(err)) => Self::finish(user, Err(err)),
                TrafficEvent::Consumed(Err(err)) => Self::finish(user, Err(err)),
                TrafficEvent::PacketAdded(Ok(_)) => Self::summary(user),
                TrafficEvent::Consumed(Ok(_)) => Self::summary(user),
                _ => Self::finish(user, Err(AppError::InternalError)),
            },
            TrafficStage::AwaitSummary => match event {
                TrafficEvent::SummaryRead(r) => Self::finish(user, r),
                _ => Self::finish(user, Err(AppError::InternalError)),
            },
            TrafficStage::Finished => Self::finish(user, Err(AppError::InternalError)),
        }
    }

    fn finish(user: String, r: Result<TrafficSummary, AppError>) -> (res: (TrafficFlow, TrafficAction))
        ensures
            res == traffic_finished(user, r),
    {
        (TrafficFlow { user_id: user, stage: TrafficStage::Finished }, TrafficAction::Finish(r))
    }

    fn summary(user: String) -> (res: (TrafficFlow, TrafficAction))
        ensures
            res == read_summary(user),
    {
        let a = TrafficAction::GetSummary { user_id: user.clone() };
        (TrafficFlow { user_id: user, stage: TrafficStage::AwaitSummary }, a)
    }
}

/// Setting the traffic lands on the target: adding the packet, or
/// consuming the bytes, that the set requests moves the remaining traffic
/// from `remaining` to `target`. This fails only where the difference to add
/// exceeds `i64::MAX`, and the cast to the store's `i64` wraps.
pub proof fn lemma_set_reaches_target(remaining: u64, target: u64)
    requires
        target - remaining <= i64::MAX,
    ensures
        match set_adjustment(remaining, target) {
            Adjustment::Keep => remaining == target,
            Adjustment::Add(d) => d > 0 && remaining + d == target,
            Adjustment::Consume(d) => d > 0 && remaining - d == target,
        },
{
}

/// A traffic change answers the summary that the store read after the
/// change, exactly as read; and it answers a summary in no other way.
pub proof fn lemma_change_answers_store_summary(f: TrafficFlow, e: TrafficEvent)
    ensures
        traffic_next(f, e).0.user_id == f.user_id,
        (f.stage is AwaitSummary && e is SummaryRead) ==> {
            &&& traffic_next(f, e).0.stage is Finished
            &&& traffic_next(f, e).1 == TrafficAction::Finish(e->SummaryRead_0)
        },
        traffic_next(f, e).1 matches TrafficAction::Finish(Ok(s)) ==> f.stage is AwaitSummary && e
            == TrafficEvent::SummaryRead(Ok(s)),
{
}

/// Setting the traffic to `target` requests exactly the change that moves
/// the user's remaining traffic there: a packet of the difference when the
/// remaining traffic is below the target, a consumption of the difference
/// when above, and none when equal (the summary is read at once). A failed
/// read ends the change with the read's error.
pub proof fn lemma_set_requests_the_difference(user: String, target: u64, read: Result<u64, AppError>)
    ensures
        ({
            let f = TrafficFlow { user_id: user, stage: TrafficStage::AwaitRemaining { target } };
            let (g, a) = traffic_next(f, TrafficEvent::RemainingRead(read));
            match read {
                Err(err) => g.stage is Finished && a == TrafficAction::Finish(Err(err)),
                Ok(rem) => if rem < target {
                    &&& g.stage is AwaitAdjustment
                    &&& a == (TrafficAction::AddPacket { user_id: user, bytes: (target - rem) as i64 })
                } else if rem > target {
                    &&& g.stage is AwaitAdjustment
                    &&& a == (TrafficAction::Consume { user_id: user, bytes: (rem - target) as u64 })
                } else {
                    &&& g.stage is AwaitSummary
                    &&& a == (TrafficAction::GetSummary { user_id: user })
                },
            }
        }),
{
}

/// After the packet was added or the bytes consumed, the user's summary is
/// read; a failed change ends with its error and reads nothing.
pub proof fn lemma_adjustment_then_summary(user: String, e: TrafficEvent)
    requires
        e is PacketAdded || e is Consumed,
    ensures
        ({
            let (g, a) = traffic_next(TrafficFlow { user_id: user, stage: TrafficStage::AwaitAdjustment }, e);
            match e {
                TrafficEvent::PacketAdded(Err(err)) => g.stage is Finished && a == TrafficAction::Finish(Err(err)),
                TrafficEvent::Consumed(Err(err)) => g.stage is Finished && a == TrafficAction::Finish(Err(err)),
                _ => g.stage is AwaitSummary && a == (TrafficAction::GetSummary { user_id: user }),
            }
        }),
{
}

/// The body of a set request: the target user (the caller unless another,
/// non-blank id is given) and the target in megabytes.
#[derive(Debug)]
pub struct SetTrafficDto {
    pub user_id: Option<String>,
    pub mb: u64,
}

/// Bytes in a megabyte, as the API counts them.
pub const BYTES_PER_MB: u64 = 1048576u64;

impl SetTrafficDto {
    /// The user whose traffic is set: the trimmed `user_id` when it is not
    /// blank, else the caller.
    pub fn target_user(&self, current_user_id: &str) -> (r: String)
        ensures
            match self.user_id {
                Some(id) if crate::text::trimmed(id@).len() > 0 => r@ == crate::text::trimmed(id@),
                _ => r@ == current_user_id@,
            },
    {
        match &self.user_id {
            Some(id) => {
                let t = trim(id.as_str());
                if t.as_str().unicode_len() > 0 {
                    t
                } else {
                    current_user_id.to_string()
                }
            },
            None => current_user_id.to_string(),
        }
    }

    /// The target in bytes; the multiplication would overflow (and panic)
    /// above `u64::MAX` bytes.
    pub fn target_bytes(&self) -> (r: u64)
        requires
            self.mb * BYTES_PER_MB <= u64::MAX,
        ensures
            r == self.mb * BYTES_PER_MB,
    {
        self.mb * BYTES_PER_MB
    }
}

} // verus!
