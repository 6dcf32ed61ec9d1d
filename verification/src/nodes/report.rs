//! Handling a node's traffic report: each user's bytes are consumed from
//! the user's traffic, and a user whose traffic runs out is removed from the
//! node. Failures are only logged; the report goes on with the next user.

use vstd::prelude::*;

use crate::error::AppError;
use super::commander::CommanderError;
use super::registry::unique_keys;

verus! {

/// The next thing the caller must do on behalf of the report.
#[derive(Debug)]
pub enum ReportAction {
    /// Consume `bytes` from the user's traffic.
    Consume { user_uuid: String, bytes: u64 },
    /// The user has no traffic left: remove them from the node.
    RemoveUser { node_id: String, user_uuid: String },
    /// Every entry of the report is handled.
    Done,
}

#[derive(Debug)]
pub enum ReportEvent {
    /// The consumption's outcome: the remaining bytes, or the error to log.
    Consumed(Result<u64, AppError>),
    /// The removal's outcome (only logged).
    RemoveFinished(Result<bool, CommanderError>),
}

/// A node's report being handled entry by entry.
pub struct ReportTrafficFlow {
    node_id: String,
    entries: Vec<(String, u64)>,
    index: usize,
    awaiting_removal: bool,
}

/// The report's decision after outcome `e`, as a relation on the answer `r`.
/// A consumption that leaves zero bytes asks for the user's removal; any
/// other outcome in turn moves on to the next entry; an outcome out of turn
/// changes nothing and answers `Done`.
pub open spec fn report_step(f: ReportTrafficFlow, e: ReportEvent, r: (ReportTrafficFlow, ReportAction)) -> bool {
    &&& r.0.node() == f.node()
    &&& r.0.report() == f.report()
    &&& f.position() >= f.report().len() ==> r.0.position() == f.position() && r.1 is Done
    &&& f.position() < f.report().len() ==> if !f.removing() && e matches ReportEvent::Consumed(Ok(0)) {
        &&& r.0.position() == f.position()
        &&& r.0.removing()
        &&& r.1 matches ReportAction::RemoveUser { node_id, user_uuid } && node_id@ == f.node()
            && user_uuid == f.report()[f.position()].0
    } else if (!f.removing() && e is Consumed) || (f.removing() && e is RemoveFinished) {
        &&& r.0.position() == f.position() + 1
        &&& !r.0.removing()
        &&& r.0.consume_or_done(f.position() + 1, r.1)
    } else {
        &&& r.0.position() == f.position()
        &&& r.0.removing() == f.removing()
        &&& r.1 is Done
    }
}

impl ReportTrafficFlow {
    #[verifier::type_invariant]
    spec fn inv(self) -> bool {
        &&& self.index <= self.entries.len()
        &&& self.awaiting_removal ==> self.index < self.entries.len()
        &&& unique_keys(self.entries@)
    }

    pub closed spec fn node(self) -> Seq<char> {
        self.node_id@
    }

    /// The report's entries.
    pub closed spec fn report(self) -> Seq<(String, u64)> {
        self.entries@
    }

    /// The entry being handled (`report().len()` once all are done).
    pub closed spec fn position(self) -> int {
        self.index as int
    }

    /// Whether the flow waits for the removal of the current entry's user
    /// (else for the consumption of its bytes).
    pub closed spec fn removing(self) -> bool {
        self.awaiting_removal
    }

    /// The action that handles entry `i` of the report, or `Done`.
    pub open spec fn consume_or_done(self, i: int, a: ReportAction) -> bool {
        if i < self.report().len() {
            a matches ReportAction::Consume { user_uuid, bytes } && user_uuid == self.report()[i].0
                && bytes == self.report()[i].1
        } else {
            a is Done
        }
    }

    fn entry_action(&self, i: usize) -> (a: ReportAction)
        requires
            i <= self.entries.len(),
        ensures
            self.consume_or_done(i as int, a),
    {
        if i < self.entries.len() {
            ReportAction::Consume { user_uuid: self.entries[i].0.clone(), bytes: self.entries[i].1 }
        } else {
            ReportAction::Done
        }
    }

    /// Begins handling a report from `node_id`. A report names each user
    /// once (it is a map from user to bytes).
    pub fn start(node_id: String, user_bytes: Vec<(String, u64)>) -> (r: (ReportTrafficFlow, ReportAction))
        requires
            unique_keys(user_bytes@),
        ensures
            r.0.node() == node_id@,
            r.0.report() == user_bytes@,
            r.0.position() == 0,
            !r.0.removing(),
            r.0.consume_or_done(0, r.1),
    {
        let f = ReportTrafficFlow { node_id, entries: user_bytes, index: 0, awaiting_removal: false };
        let a = f.entry_action(0);
        (f, a)
    }

    /// Takes the outcome of the last requested action. A consumption that
    /// leaves zero bytes asks for the user's removal; any other outcome
    /// moves on to the next entry. An outcome out of turn is ignored.
    pub fn step(self, event: ReportEvent) -> (r: (ReportTrafficFlow, ReportAction))
        ensures
            report_step(self, event, r),
    {
        proof {
            use_type_invariant(&self);
        }
        let mut f = self;
        if f.index >= f.entries.len() {
            return (f, ReportAction::Done);
        }
        if !f.awaiting_removal {
            match event {
                ReportEvent::Consumed(Ok(remaining)) => {
                    if remaining == 0 {
                        let a = ReportAction::RemoveUser {
                            node_id: f.node_id.clone(),
                            user_uuid: f.entries[f.index].0.clone(),
                        };
                        f.awaiting_removal = true;
                        (f, a)
                    } else {
                        f.index = f.index + 1;
                        let a = f.entry_action(f.index);
                        (f, a)
                    }
                },
                ReportEvent::Consumed(Err(_)) => {
                    f.index = f.index + 1;
                    let a = f.entry_action(f.index);
                    (f, a)
                },
                ReportEvent::RemoveFinished(_) => (f, ReportAction::Done),
            }
        } else {
            match event {
                ReportEvent::RemoveFinished(_) => {
                    f.awaiting_removal = false;
                    f.index = f.index + 1;
                    let a = f.entry_action(f.index);
                    (f, a)
                },
                ReportEvent::Consumed(_) => (f, ReportAction::Done),
            }
        }
    }
}

} // verus!

verus! {

/// `a` consumes the bytes of report entry `entry` from its user.
pub open spec fn consumes(a: ReportAction, entry: (String, u64)) -> bool {
    a matches ReportAction::Consume { user_uuid, bytes } && user_uuid == entry.0 && bytes == entry.1
}

/// Some action up to index `j` consumes report entry `entry`.
pub open spec fn consumed_by(actions: Seq<ReportAction>, entry: (String, u64), j: int) -> bool {
    exists|k: int| 0 <= k <= j && #[trigger] consumes(actions[k], entry)
}

/// `a` consumes bytes from `user`.
pub open spec fn consumes_from(a: ReportAction, user: String) -> bool {
    a matches ReportAction::Consume { user_uuid, .. } && user_uuid == user
}

/// A run of a report's handling from its start: `actions[0]` is what
/// `start` asked for, and `flows[i]` takes `events[i]` and answers
/// `(flows[i + 1], actions[i + 1])`.
pub open spec fn is_report_run(
    flows: Seq<ReportTrafficFlow>,
    events: Seq<ReportEvent>,
    actions: Seq<ReportAction>,
) -> bool {
    &&& flows.len() == events.len() + 1
    &&& actions.len() == events.len() + 1
    &&& flows[0].position() == 0
    &&& !flows[0].removing()
    &&& flows[0].consume_or_done(0, actions[0])
    &&& forall|i: int|
        0 <= i < events.len() ==> #[trigger] report_step(flows[i], events[i], (flows[i + 1], actions[i + 1]))
}

proof fn lemma_report_run_inv(
    flows: Seq<ReportTrafficFlow>,
    events: Seq<ReportEvent>,
    actions: Seq<ReportAction>,
    j: int,
)
    requires
        is_report_run(flows, events, actions),
        0 <= j <= events.len(),
    ensures
        flows[j].report() == flows[0].report(),
        flows[j].node() == flows[0].node(),
        0 <= flows[j].position() <= flows[0].report().len(),
        actions[j] is Consume ==> {
            &&& flows[j].position() < flows[0].report().len()
            &&& !flows[j].removing()
            &&& consumes(actions[j], flows[0].report()[flows[j].position()])
            &&& j > 0 ==> flows[j].position() == flows[j - 1].position() + 1
        },
        forall|i: int| 0 <= i <= j ==> #[trigger] flows[i].position() <= flows[j].position(),
        forall|p: int|
            0 <= p <= flows[j].position() && p < flows[0].report().len() ==> #[trigger] consumed_by(
                actions,
                flows[0].report()[p],
                j,
            ),
    decreases j,
{
    if j == 0 {
        assert forall|p: int|
            0 <= p <= flows[j].position() && p < flows[0].report().len() implies #[trigger] consumed_by(
                actions,
                flows[0].report()[p],
                j,
            ) by {
            assert(consumes(actions[0], flows[0].report()[p]));
        }
    } else {
        lemma_report_run_inv(flows, events, actions, j - 1);
        let i = j - 1;
        assert(report_step(flows[i], events[i], (flows[i + 1], actions[i + 1])));
        let f = flows[i];
        assert forall|p: int|
            0 <= p <= flows[j].position() && p < flows[0].report().len() implies #[trigger] consumed_by(
                actions,
                flows[0].report()[p],
                j,
            ) by {
            if p <= f.position() {
                assert(consumed_by(actions, flows[0].report()[p], i));
                let k = choose|k: int| 0 <= k <= i && #[trigger] consumes(actions[k], flows[0].report()[p]);
                assert(0 <= k <= j && consumes(actions[k], flows[0].report()[p]));
            } else {
                assert(p == f.position() + 1);
                assert(consumes(actions[j], flows[0].report()[p]));
            }
        }
        assert forall|m: int| 0 <= m <= j implies #[trigger] flows[m].position() <= flows[j].position() by {
            if m < j {
                assert(flows[m].position() <= flows[i].position());
            }
        }
    }
}

/// Over a whole report, each user is asked to be consumed at most once,
/// always by the bytes the report gives for that user; and once the report
/// is handled to its end, every entry's consumption was asked for.
pub proof fn lemma_report_consumes_each_user_once(
    flows: Seq<ReportTrafficFlow>,
    events: Seq<ReportEvent>,
    actions: Seq<ReportAction>,
)
    requires
        is_report_run(flows, events, actions),
        unique_keys(flows[0].report()),
    ensures
        forall|k: int|
            0 <= k < actions.len() && #[trigger] actions[k] is Consume ==> exists|p: int|
                0 <= p < flows[0].report().len() && consumes(actions[k], #[trigger] flows[0].report()[p]),
        forall|k1: int, k2: int|
            0 <= k1 < k2 < actions.len() && #[trigger] actions[k1] is Consume && #[trigger] actions[k2] is Consume
                ==> actions[k1]->Consume_user_uuid@ != actions[k2]->Consume_user_uuid@,
        flows.last().position() == flows[0].report().len() ==> forall|p: int|
            0 <= p < flows[0].report().len() ==> #[trigger] consumed_by(
                actions,
                flows[0].report()[p],
                actions.len() - 1,
            ),
{
    let rep = flows[0].report();
    assert forall|k: int| 0 <= k < actions.len() && #[trigger] actions[k] is Consume implies exists|p: int|
        0 <= p < rep.len() && consumes(actions[k], #[trigger] rep[p]) by {
        lemma_report_run_inv(flows, events, actions, k);
        let p = flows[k].position();
        assert(consumes(actions[k], rep[p]));
    }
    assert forall|k1: int, k2: int|
        0 <= k1 < k2 < actions.len() && #[trigger] actions[k1] is Consume && #[trigger] actions[k2] is Consume
            implies actions[k1]->Consume_user_uuid@ != actions[k2]->Consume_user_uuid@ by {
        lemma_report_run_inv(flows, events, actions, k1);
        lemma_report_run_inv(flows, events, actions, k2);
        lemma_report_run_inv(flows, events, actions, k2 - 1);
        let p1 = flows[k1].position();
        let p2 = flows[k2].position();
        assert(flows[k1].position() <= flows[k2 - 1].position());
        assert(p1 < p2);
        assert(rep[p1].0@ != rep[p2].0@);
    }
    let n = events.len() as int;
    lemma_report_run_inv(flows, events, actions, n);
    if flows.last().position() == rep.len() {
        assert(flows[n] == flows.last());
        assert forall|p: int| 0 <= p < flows[0].report().len() implies #[trigger] consumed_by(
            actions,
            flows[0].report()[p],
            actions.len() - 1,
        ) by {
            assert(consumed_by(actions, flows[0].report()[p], n));
        }
    }
}

/// A user is removed from the node only right after the consumption of the
/// user's bytes, asked for earlier in the run, left zero bytes.
pub proof fn lemma_report_removes_only_exhausted(
    flows: Seq<ReportTrafficFlow>,
    events: Seq<ReportEvent>,
    actions: Seq<ReportAction>,
    k: int,
)
    requires
        is_report_run(flows, events, actions),
        0 <= k < actions.len(),
        actions[k] is RemoveUser,
    ensures
        k > 0,
        events[k - 1] == ReportEvent::Consumed(Ok(0)),
        actions[k]->RemoveUser_node_id@ == flows[0].node(),
        exists|k2: int|
            0 <= k2 < k && #[trigger] consumes_from(actions[k2], actions[k]->RemoveUser_user_uuid),
{
    assert(k > 0);
    let i = k - 1;
    lemma_report_run_inv(flows, events, actions, i);
    assert(report_step(flows[i], events[i], (flows[i + 1], actions[i + 1])));
    let p = flows[i].position();
    if let ReportEvent::Consumed(Ok(v)) = events[i] {
        assert(v == 0);
    }
    assert(consumed_by(actions, flows[0].report()[p], i));
    let k2 = choose|k2: int| 0 <= k2 <= i && #[trigger] consumes(actions[k2], flows[0].report()[p]);
    assert(consumes_from(actions[k2], actions[k]->RemoveUser_user_uuid));
}

} // verus!
