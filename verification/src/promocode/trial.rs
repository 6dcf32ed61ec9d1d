//! Issuing a trial promo code.
//!
//! A user who already owns an active trial code gets it back. Otherwise
//! fresh codes are drawn until one is not taken (at most ten draws), and a
//! trial code with it is created.

use vstd::prelude::*;

use crate::error::AppError;
use super::code::{generate_5char_code, is_generated_code};
use super::model::{PromoCode, PromoCodeRewardType};

verus! {

/// Traffic granted by a trial code: 10 GiB.
pub const TRIAL_TRAFFIC_BYTES: i64 = 10737418240i64;

/// Days of traffic validity granted by a trial code.
pub const TRIAL_DURATION_DAYS: i32 = 7;

/// Days after which an unclaimed trial code expires.
pub const TRIAL_CODE_EXPIRES_IN_DAYS: i64 = 30;

/// How many fresh codes are drawn before giving up.
pub const MAX_CODE_ATTEMPTS: u8 = 10;

/// The next thing the caller must do on behalf of the trial issuing.
#[derive(Debug)]
pub enum TrialAction {
    /// Look up an active (unused, unexpired) trial code created by the user.
    FindActiveTrial { user_id: Option<String> },
    /// Look the candidate code up in the store.
    FindByCode { code: String },
    /// Create the promo code.
    CreatePromoCode {
        code: String,
        reward_type: PromoCodeRewardType,
        reward_bytes: i64,
        duration_days: i32,
        created_by_user_id: Option<String>,
        expires_in_days: i64,
    },
    /// The issuing is over.
    Finish(Result<PromoCode, AppError>),
}

/// The outcome of the last requested action.
#[derive(Debug)]
pub enum TrialEvent {
    ActiveTrialLookedUp(Result<Option<PromoCode>, AppError>),
    CodeLookedUp(Result<Option<PromoCode>, AppError>),
    Created(Result<PromoCode, AppError>),
}

/// Where a trial issuing stands.
#[derive(Debug)]
pub enum TrialStage {
    AwaitActiveTrial,
    /// Waits for the lookup of `code`, the `attempt`-th draw.
    AwaitCodeLookup { attempt: u8, code: String },
    AwaitCreate,
    Finished,
}

/// Issuing a trial code for a user (or for nobody, when anonymous).
#[derive(Debug)]
pub struct IssueTrialFlow {
    pub user_id: Option<String>,
    pub stage: TrialStage,
}

pub open spec fn trial_at(user: Option<String>, stage: TrialStage, a: TrialAction) -> (
    IssueTrialFlow,
    TrialAction,
) {
    (IssueTrialFlow { user_id: user, stage }, a)
}

pub open spec fn trial_finished(user: Option<String>, r: Result<PromoCode, AppError>) -> (
    IssueTrialFlow,
    TrialAction,
) {
    trial_at(user, TrialStage::Finished, TrialAction::Finish(r))
}

pub open spec fn probe(user: Option<String>, attempt: u8, code: String) -> (
    IssueTrialFlow,
    TrialAction,
) {
    trial_at(
        user,
        TrialStage::AwaitCodeLookup { attempt, code },
        TrialAction::FindByCode { code },
    )
}

pub open spec fn create_action(user: Option<String>, code: String) -> TrialAction {
    TrialAction::CreatePromoCode {
        code,
        reward_type: PromoCodeRewardType::Trial,
        reward_bytes: TRIAL_TRAFFIC_BYTES,
        duration_days: TRIAL_DURATION_DAYS,
        created_by_user_id: user,
        expires_in_days: TRIAL_CODE_EXPIRES_IN_DAYS,
    }
}

/// The issuing's decision after outcome `e`; `fresh` is the code to try if
/// a new one is needed. An outcome that the state does not wait for ends the
/// issuing with an internal error.
pub open spec fn trial_next(f: IssueTrialFlow, e: TrialEvent, fresh: String) -> (
    IssueTrialFlow,
    TrialAction,
) {
    let user = f.user_id;
    match f.stage {
        TrialStage::AwaitActiveTrial => match e {
            TrialEvent::ActiveTrialLookedUp(Err(err)) => trial_finished(user, Err(err)),
            TrialEvent::ActiveTrialLookedUp(Ok(Some(p))) => trial_finished(user, Ok(p)),
            TrialEvent::ActiveTrialLookedUp(Ok(None)) => probe(user, 1, fresh),
            _ => trial_finished(user, Err(AppError::InternalError)),
        },
        TrialStage::AwaitCodeLookup { attempt, code } => match e {
            TrialEvent::CodeLookedUp(Err(err)) => trial_finished(user, Err(err)),
            TrialEvent::CodeLookedUp(Ok(None)) => trial_at(
                user,
                TrialStage::AwaitCreate,
                create_action(user, code),
            ),
            TrialEvent::CodeLookedUp(Ok(Some(_))) => {
                if attempt < MAX_CODE_ATTEMPTS {
                    probe(user, (attempt + 1) as u8, fresh)
                } else {
                    trial_finished(user, Err(AppError::InternalError))
                }
            },
            _ => trial_finished(user, Err(AppError::InternalError)),
        },
        TrialStage::AwaitCreate => match e {
            TrialEvent::Created(r) => trial_finished(user, r),
            _ => trial_finished(user, Err(AppError::InternalError)),
        },
        TrialStage::Finished => trial_finished(user, Err(AppError::InternalError)),
    }
}

/// The flow's state is well formed: the draw counter lies in 1..=10.
pub open spec fn trial_flow_wf(f: IssueTrialFlow) -> bool {
    f.stage matches TrialStage::AwaitCodeLookup { attempt, .. } ==> 1 <= attempt
        <= MAX_CODE_ATTEMPTS
}

impl IssueTrialFlow {
    /// Begins issuing a trial code for `user_id`.
    pub fn start(user_id: Option<String>) -> (r: (IssueTrialFlow, TrialAction))
        ensures
            r.0.user_id == user_id,
            r.0.stage is AwaitActiveTrial,
            r.1 == (TrialAction::FindActiveTrial { user_id }),
    {
        let a = TrialAction::FindActiveTrial { user_id: user_id.clone() };
        (IssueTrialFlow { user_id, stage: TrialStage::AwaitActiveTrial }, a)
    }

    /// Whether the issuing is over.
    pub fn finished(&self) -> (r: bool)
        ensures
            r == (self.stage is Finished),
    {
        match self.stage {
            TrialStage::Finished => true,
            _ => false,
        }
    }

    /// Takes the outcome of the last requested action, with `fresh` the code
    /// to try should a new draw be needed.
    pub fn step_with_code(self, event: TrialEvent, fresh: String) -> (r: (IssueTrialFlow, TrialAction))
        requires
            trial_flow_wf(self),
        ensures
            r == trial_next(self, event, fresh),
            trial_flow_wf(r.0),
    {
        let user = self.user_id;
        match self.stage {
            TrialStage::AwaitActiveTrial => match event {
                TrialEvent::ActiveTrialLookedUp(Err(err)) => Self::finish(user, Err(err)),
                TrialEvent::ActiveTrialLookedUp(Ok(Some(p))) => Self::finish(user, Ok(p)),
                TrialEvent::ActiveTrialLookedUp(Ok(None)) => Self::probe_code(user, 1, fresh),
                _ => Self::finish(user, Err(AppError::InternalError)),
            },
            TrialStage::AwaitCodeLookup { attempt, code } => match event {
                TrialEvent::CodeLookedUp(Err(err)) => Self::finish(user, Err(err)),
                TrialEvent::CodeLookedUp(Ok(None)) => {
                    let a = TrialAction::CreatePromoCode {
                        code,
                        reward_type: PromoCodeRewardType::Trial,
                        reward_bytes: TRIAL_TRAFFIC_BYTES,
                        duration_days: TRIAL_DURATION_DAYS,
                        created_by_user_id: user.clone(),
                        expires_in_days: TRIAL_CODE_EXPIRES_IN_DAYS,
                    };
                    (IssueTrialFlow { user_id: user, stage: TrialStage::AwaitCreate }, a)
                },
                TrialEvent::CodeLookedUp(Ok(Some(_))) => {
                    if attempt < MAX_CODE_ATTEMPTS {
                        Self::probe_code(user, attempt + 1, fresh)
                    } else {
                        Self::finish(user, Err(AppError::InternalError))
                    }
                },
                _ => Self::finish(user, Err(AppError::InternalError)),
            },
            TrialStage::AwaitCreate => match event {
                TrialEvent::Created(r) => Self::finish(user, r),
                _ => Self::finish(user, Err(AppError::InternalError)),
            },
            TrialStage::Finished => Self::finish(user, Err(AppError::InternalError)),
        }
    }

    /// Takes the outcome of the last requested action, drawing a fresh code
    /// at random when one is needed.
    pub fn step(self, event: TrialEvent) -> (r: (IssueTrialFlow, TrialAction))
        requires
            trial_flow_wf(self),
        ensures
            exists|fresh: String|
                is_generated_code(fresh@) && r == trial_next(self, event, fresh),
            trial_flow_wf(r.0),
    {
        let fresh = generate_5char_code();
        let ghost g = fresh;
        let r = self.step_with_code(event, fresh);
        assert(is_generated_code(g@) && r == trial_next(self, event, g));
        r
    }

    fn finish(user: Option<String>, r: Result<PromoCode, AppError>) -> (res: (
        IssueTrialFlow,
        TrialAction,
    ))
        ensures
            res == trial_finished(user, r),
    {
        (IssueTrialFlow { user_id: user, stage: TrialStage::Finished }, TrialAction::Finish(r))
    }

    fn probe_code(user: Option<String>, attempt: u8, code: String) -> (res: (
        IssueTrialFlow,
        TrialAction,
    ))
        ensures
            res == probe(user, attempt, code),
    {
        let a = TrialAction::FindByCode { code: code.clone() };
        (IssueTrialFlow { user_id: user, stage: TrialStage::AwaitCodeLookup { attempt, code } }, a)
    }
}

} // verus!

verus! {

/// The actions that an issuing in state `f` requests when handed the
/// outcomes `events` in turn, `freshes[i]` being the code drawn at step `i`.
pub open spec fn trial_actions(f: IssueTrialFlow, events: Seq<TrialEvent>, freshes: Seq<String>) -> Seq<
    TrialAction,
>
    recommends
        freshes.len() == events.len(),
    decreases events.len(),
{
    if events.len() == 0 || freshes.len() == 0 {
        Seq::empty()
    } else {
        let (f1, a) = trial_next(f, events[0], freshes[0]);
        seq![a] + trial_actions(f1, events.drop_first(), freshes.drop_first())
    }
}

/// How many code lookups a sequence of actions requests.
pub open spec fn lookup_count(actions: Seq<TrialAction>) -> nat
    decreases actions.len(),
{
    if actions.len() == 0 {
        0
    } else {
        (if actions[0] is FindByCode {
            1nat
        } else {
            0nat
        }) + lookup_count(actions.drop_first())
    }
}

/// Lookups that an issuing in state `s` may still request.
pub open spec fn lookup_budget(s: TrialStage) -> nat {
    match s {
        TrialStage::AwaitActiveTrial => MAX_CODE_ATTEMPTS as nat,
        TrialStage::AwaitCodeLookup { attempt, .. } => (MAX_CODE_ATTEMPTS - attempt) as nat,
        _ => 0,
    }
}

proof fn lemma_lookups_within_budget(f: IssueTrialFlow, events: Seq<TrialEvent>, freshes: Seq<String>)
    requires
        trial_flow_wf(f),
    ensures
        lookup_count(trial_actions(f, events, freshes)) <= lookup_budget(f.stage),
    decreases events.len(),
{
    if events.len() > 0 && freshes.len() > 0 {
        let (f1, a) = trial_next(f, events[0], freshes[0]);
        lemma_lookups_within_budget(f1, events.drop_first(), freshes.drop_first());
        let acts = trial_actions(f, events, freshes);
        assert(acts.drop_first() =~= trial_actions(f1, events.drop_first(), freshes.drop_first()));
    }
}

/// An issuing looks up at most ten candidate codes, whatever the store
/// answers.
pub proof fn lemma_at_most_ten_lookups(
    user: Option<String>,
    events: Seq<TrialEvent>,
    freshes: Seq<String>,
)
    ensures
        lookup_count(
            trial_actions(
                IssueTrialFlow { user_id: user, stage: TrialStage::AwaitActiveTrial },
                events,
                freshes,
            ),
        ) <= 10,
{
    lemma_lookups_within_budget(
        IssueTrialFlow { user_id: user, stage: TrialStage::AwaitActiveTrial },
        events,
        freshes,
    );
}

proof fn lemma_trial_actions_unfold(
    f: IssueTrialFlow,
    events: Seq<TrialEvent>,
    freshes: Seq<String>,
    k: int,
)
    requires
        0 <= k < events.len(),
        freshes.len() == events.len(),
    ensures
        trial_actions(f, events, freshes).len() == events.len(),
        trial_actions(f, events, freshes)[0] == trial_next(f, events[0], freshes[0]).1,
        k > 0 ==> trial_actions(f, events, freshes)[k] == trial_actions(
            trial_next(f, events[0], freshes[0]).0,
            events.drop_first(),
            freshes.drop_first(),
        )[k - 1],
    decreases events.len(),
{
    let f1 = trial_next(f, events[0], freshes[0]).0;
    if events.len() > 1 {
        lemma_trial_actions_unfold(f1, events.drop_first(), freshes.drop_first(), 0);
    } else {
        assert(trial_actions(f1, events.drop_first(), freshes.drop_first()) =~= Seq::empty());
    }
}

proof fn lemma_create_follows_free_lookup(
    f: IssueTrialFlow,
    events: Seq<TrialEvent>,
    freshes: Seq<String>,
    k: int,
)
    requires
        0 <= k < events.len(),
        freshes.len() == events.len(),
        trial_actions(f, events, freshes)[k] is CreatePromoCode,
    ensures
        events[k] == TrialEvent::CodeLookedUp(Ok(None)),
        k == 0 ==> (f.stage matches TrialStage::AwaitCodeLookup { code, .. }
            && trial_actions(f, events, freshes)[k]->CreatePromoCode_code == code),
        k > 0 ==> (trial_actions(f, events, freshes)[k - 1] matches TrialAction::FindByCode { code }
            && trial_actions(f, events, freshes)[k]->CreatePromoCode_code == code),
    decreases k,
{
    lemma_trial_actions_unfold(f, events, freshes, k);
    if k > 0 {
        let f1 = trial_next(f, events[0], freshes[0]).0;
        lemma_create_follows_free_lookup(f1, events.drop_first(), freshes.drop_first(), k - 1);
        assert(events[k] == events.drop_first()[k - 1]);
        if k > 1 {
            lemma_trial_actions_unfold(f, events, freshes, k - 1);
        }
    }
}

/// A trial code is created only with a code whose lookup, requested just
/// before, found it free; and the code is created with the trial reward.
pub proof fn lemma_create_only_free_code(
    user: Option<String>,
    events: Seq<TrialEvent>,
    freshes: Seq<String>,
    k: int,
)
    requires
        0 <= k < events.len(),
        freshes.len() == events.len(),
        trial_actions(
            IssueTrialFlow { user_id: user, stage: TrialStage::AwaitActiveTrial },
            events,
            freshes,
        )[k] is CreatePromoCode,
    ensures
        k > 0,
        events[k] == TrialEvent::CodeLookedUp(Ok(None)),
        ({
            let acts = trial_actions(
                IssueTrialFlow { user_id: user, stage: TrialStage::AwaitActiveTrial },
                events,
                freshes,
            );
            &&& acts[k - 1] matches TrialAction::FindByCode { code }
            &&& acts[k] == create_action(user, code)
        }),
{
    let f0 = IssueTrialFlow { user_id: user, stage: TrialStage::AwaitActiveTrial };
    lemma_create_follows_free_lookup(f0, events, freshes, k);
    lemma_create_actions_carry_user(f0, events, freshes, k);
}

proof fn lemma_create_actions_carry_user(
    f: IssueTrialFlow,
    events: Seq<TrialEvent>,
    freshes: Seq<String>,
    k: int,
)
    requires
        0 <= k < events.len(),
        freshes.len() == events.len(),
        trial_actions(f, events, freshes)[k] is CreatePromoCode,
    ensures
        trial_actions(f, events, freshes)[k] == create_action(
            f.user_id,
            trial_actions(f, events, freshes)[k]->CreatePromoCode_code,
        ),
    decreases k,
{
    lemma_trial_actions_unfold(f, events, freshes, k);
    if k > 0 {
        let f1 = trial_next(f, events[0], freshes[0]).0;
        lemma_create_actions_carry_user(f1, events.drop_first(), freshes.drop_first(), k - 1);
    }
}

/// Trial issuing, step by step: a user's active trial code is answered as
/// it is; without one, the fresh code is looked up. A code found free is
/// created as a trial code of 10 GiB for 7 days, by this user, expiring in
/// 30 days; a taken code leads to the next fresh code, up to the tenth,
/// after which issuing fails. The store's creation result is the answer, and
/// every failed store call ends with its error.
pub proof fn lemma_trial_decides(user: Option<String>, e: TrialEvent, fresh: String, attempt: u8, code: String)
    ensures
        ({
            let (g, a) = trial_next(IssueTrialFlow { user_id: user, stage: TrialStage::AwaitActiveTrial }, e, fresh);
            match e {
                TrialEvent::ActiveTrialLookedUp(Err(err)) => a == TrialAction::Finish(Err(err)),
                TrialEvent::ActiveTrialLookedUp(Ok(Some(p))) => a == TrialAction::Finish(Ok(p)),
                TrialEvent::ActiveTrialLookedUp(Ok(None)) => g.stage == (TrialStage::AwaitCodeLookup {
                    attempt: 1,
                    code: fresh,
                }) && a == (TrialAction::FindByCode { code: fresh }),
                _ => a == TrialAction::Finish(Err(AppError::InternalError)),
            }
        }),
        ({
            let (g, a) = trial_next(
                IssueTrialFlow { user_id: user, stage: TrialStage::AwaitCodeLookup { attempt, code } },
                e,
                fresh,
            );
            match e {
                TrialEvent::CodeLookedUp(Err(err)) => a == TrialAction::Finish(Err(err)),
                TrialEvent::CodeLookedUp(Ok(None)) => a == (TrialAction::CreatePromoCode {
                    code,
                    reward_type: PromoCodeRewardType::Trial,
                    reward_bytes: 10737418240,
                    duration_days: 7,
                    created_by_user_id: user,
                    expires_in_days: 30,
                }),
                TrialEvent::CodeLookedUp(Ok(Some(_))) => if attempt < 10 {
                    g.stage == (TrialStage::AwaitCodeLookup { attempt: (attempt + 1) as u8, code: fresh })
                        && a == (TrialAction::FindByCode { code: fresh })
                } else {
                    a == TrialAction::Finish(Err(AppError::InternalError))
                },
                _ => a == TrialAction::Finish(Err(AppError::InternalError)),
            }
        }),
        ({
            let (g, a) = trial_next(IssueTrialFlow { user_id: user, stage: TrialStage::AwaitCreate }, e, fresh);
            e matches TrialEvent::Created(r) ==> a == TrialAction::Finish(r)
        }),
{
}

} // verus!
