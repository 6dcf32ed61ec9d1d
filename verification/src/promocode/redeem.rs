//! Redeeming a promo code.
//!
//! The redemption talks to the promo code store, the traffic service and the
//! device abuse shield. `UsePromoCodeFlow` makes every decision: `start`
//! checks the code's format and asks for the lookup, and each `step` takes
//! the outcome of the last requested action and names the next one, until
//! `RedeemAction::Finish` carries the result.

use vstd::prelude::*;

use crate::error::AppError;
use super::code::{check_redeemable_format, is_redeemable_format, normalize_code, normalized_code};
use super::model::{PromoCode, PromoCodeRewardType};

verus! {

/// What a successful redemption granted.
#[derive(Debug, Clone, Copy, PartialEq, Eq, Structural)]
pub struct UsePromoCodeResult {
    pub reward_type: PromoCodeRewardType,
    pub reward_bytes: i64,
    pub duration_days: i32,
}

/// The next thing the caller must do on behalf of the redemption.
#[derive(Debug)]
pub enum RedeemAction {
    /// Look the code up in the promo code store (case-insensitive).
    FindByCode { code: String },
    /// Ask the store whether this user already redeemed this code.
    CheckUserRedeemed { user_id: String, promocode_id: u128 },
    /// Count the trial codes that this user redeemed.
    CountTrialRedemptions { user_id: String },
    /// Ask the abuse shield whether the user's device already had a trial.
    CheckDeviceTrial { user_id: String },
    /// Grant traffic to the user.
    GrantTraffic { user_id: String, bytes: i64, duration_days: i64 },
    /// Record the redemption (increments the code's use count).
    MarkAsUsed { promocode_id: u128, user_id: String },
    /// Flag the user's device as having redeemed a trial.
    MarkDeviceTrial { user_id: String },
    /// The redemption is over.
    Finish(Result<UsePromoCodeResult, AppError>),
}

/// The outcome of the last requested action.
#[derive(Debug)]
pub enum RedeemEvent {
    CodeLookedUp(Result<Option<PromoCode>, AppError>),
    UserRedeemedChecked(Result<bool, AppError>),
    TrialCounted(Result<i64, AppError>),
    DeviceTrialChecked(Result<bool, AppError>),
    TrafficGranted(Result<(), AppError>),
    MarkedUsed(Result<(), AppError>),
    DeviceTrialMarked(Result<(), AppError>),
}

/// Where a redemption stands: which outcome it waits for, and the code found.
#[derive(Debug)]
pub enum RedeemStage {
    AwaitCode,
    AwaitUserRedeemed(PromoCode),
    AwaitTrialCount(PromoCode),
    AwaitDeviceTrial(PromoCode),
    AwaitGrant(PromoCode),
    AwaitMark(PromoCode),
    AwaitDeviceMark(PromoCode),
    Finished,
}

/// A redemption of one code by one user.
#[derive(Debug)]
pub struct UsePromoCodeFlow {
    pub user_id: String,
    pub stage: RedeemStage,
}

/// What a redemption of `p` grants.
pub open spec fn reward_of(p: PromoCode) -> UsePromoCodeResult {
    UsePromoCodeResult {
        reward_type: p.reward_type,
        reward_bytes: p.reward_bytes,
        duration_days: p.duration_days,
    }
}

pub open spec fn grant_action(user: String, p: PromoCode) -> RedeemAction {
    RedeemAction::GrantTraffic {
        user_id: user,
        bytes: p.reward_bytes,
        duration_days: p.duration_days as i64,
    }
}

pub open spec fn finished(user: String, r: Result<UsePromoCodeResult, AppError>) -> (
    UsePromoCodeFlow,
    RedeemAction,
) {
    (UsePromoCodeFlow { user_id: user, stage: RedeemStage::Finished }, RedeemAction::Finish(r))
}

pub open spec fn at(user: String, stage: RedeemStage, a: RedeemAction) -> (
    UsePromoCodeFlow,
    RedeemAction,
) {
    (UsePromoCodeFlow { user_id: user, stage }, a)
}

/// The redemption's decision: the next state and action after outcome `e`,
/// with `now` the current instant. An outcome that the state does not wait
/// for ends the redemption with an internal error.
pub open spec fn redeem_next(f: UsePromoCodeFlow, e: RedeemEvent, now: i64) -> (
    UsePromoCodeFlow,
    RedeemAction,
) {
    let user = f.user_id;
    match f.stage {
        RedeemStage::AwaitCode => match e {
            RedeemEvent::CodeLookedUp(Err(err)) => finished(user, Err(err)),
            RedeemEvent::CodeLookedUp(Ok(None)) => finished(user, Err(AppError::PromoCodeNotFound)),
            RedeemEvent::CodeLookedUp(Ok(Some(p))) => {
                if p.spec_is_used() {
                    finished(user, Err(AppError::PromoCodeAlreadyUsed))
                } else if p.spec_is_expired_at(now) {
                    finished(user, Err(AppError::PromoCodeExpired))
                } else {
                    at(
                        user,
                        RedeemStage::AwaitUserRedeemed(p),
                        RedeemAction::CheckUserRedeemed { user_id: user, promocode_id: p.id },
                    )
                }
            },
            _ => finished(user, Err(AppError::InternalError)),
        },
        RedeemStage::AwaitUserRedeemed(p) => match e {
            RedeemEvent::UserRedeemedChecked(Err(err)) => finished(user, Err(err)),
            RedeemEvent::UserRedeemedChecked(Ok(true)) => finished(
                user,
                Err(AppError::PromoCodeAlreadyUsed),
            ),
            RedeemEvent::UserRedeemedChecked(Ok(false)) => {
                if p.reward_type == PromoCodeRewardType::Trial {
                    at(
                        user,
                        RedeemStage::AwaitTrialCount(p),
                        RedeemAction::CountTrialRedemptions { user_id: user },
                    )
                } else {
                    at(user, RedeemStage::AwaitGrant(p), grant_action(user, p))
                }
            },
            _ => finished(user, Err(AppError::InternalError)),
        },
        RedeemStage::AwaitTrialCount(p) => match e {
            RedeemEvent::TrialCounted(Err(err)) => finished(user, Err(err)),
            RedeemEvent::TrialCounted(Ok(count)) => {
                if count >= 1 {
                    finished(user, Err(AppError::PromoCodeTrialLimitReached))
                } else {
                    at(
                        user,
                        RedeemStage::AwaitDeviceTrial(p),
                        RedeemAction::CheckDeviceTrial { user_id: user },
                    )
                }
            },
            _ => finished(user, Err(AppError::InternalError)),
        },
        RedeemStage::AwaitDeviceTrial(p) => match e {
            RedeemEvent::DeviceTrialChecked(Err(err)) => finished(user, Err(err)),
            RedeemEvent::DeviceTrialChecked(Ok(true)) => finished(
                user,
                Err(AppError::PromoCodeTrialLimitReached),
            ),
            RedeemEvent::DeviceTrialChecked(Ok(false)) => at(
                user,
                RedeemStage::AwaitGrant(p),
                grant_action(user, p),
            ),
            _ => finished(user, Err(AppError::InternalError)),
        },
        RedeemStage::AwaitGrant(p) => match e {
            RedeemEvent::TrafficGranted(Err(err)) => finished(user, Err(err)),
            RedeemEvent::TrafficGranted(Ok(())) => at(
                user,
                RedeemStage::AwaitMark(p),
                RedeemAction::MarkAsUsed { promocode_id: p.id, user_id: user },
            ),
            _ => finished(user, Err(AppError::InternalError)),
        },
        RedeemStage::AwaitMark(p) => match e {
            RedeemEvent::MarkedUsed(Err(err)) => finished(user, Err(err)),
            RedeemEvent::MarkedUsed(Ok(())) => {
                if p.reward_type == PromoCodeRewardType::Trial {
                    at(
                        user,
                        RedeemStage::AwaitDeviceMark(p),
                        RedeemAction::MarkDeviceTrial { user_id: user },
                    )
                } else {
                    finished(user, Ok(reward_of(p)))
                }
            },
            _ => finished(user, Err(AppError::InternalError)),
        },
        RedeemStage::AwaitDeviceMark(p) => match e {
            // A failure to flag the device does not undo the redemption.
            RedeemEvent::DeviceTrialMarked(_) => finished(user, Ok(reward_of(p))),
            _ => finished(user, Err(AppError::InternalError)),
        },
        RedeemStage::Finished => finished(user, Err(AppError::InternalError)),
    }
}

impl UsePromoCodeFlow {
    pub open spec fn is_finished(&self) -> bool {
        self.stage is Finished
    }

    /// Begins a redemption of `raw_code` by `user_id`. The code is trimmed
    /// and uppercased; unless it then is five ASCII letters or digits, the
    /// redemption ends at once with `PromoCodeInvalidFormat`.
    pub fn start(user_id: String, raw_code: &str) -> (r: (UsePromoCodeFlow, RedeemAction))
        ensures
            r.0.user_id == user_id,
            is_redeemable_format(normalized_code(raw_code@)) ==> {
                &&& r.0.stage is AwaitCode
                &&& r.1 is FindByCode
                &&& r.1->FindByCode_code@ == normalized_code(raw_code@)
            },
            !is_redeemable_format(normalized_code(raw_code@)) ==> r == finished(
                user_id,
                Err(AppError::PromoCodeInvalidFormat),
            ),
    {
        let code = normalize_code(raw_code);
        if !check_redeemable_format(code.as_str()) {
            return (
                UsePromoCodeFlow { user_id, stage: RedeemStage::Finished },
                RedeemAction::Finish(Err(AppError::PromoCodeInvalidFormat)),
            );
        }
        (UsePromoCodeFlow { user_id, stage: RedeemStage::AwaitCode }, RedeemAction::FindByCode { code })
    }

    /// Whether the redemption is over.
    pub fn finished(&self) -> (r: bool)
        ensures
            r == self.is_finished(),
    {
        match self.stage {
            RedeemStage::Finished => true,
            _ => false,
        }
    }

    /// Takes the outcome of the last requested action; `now` is the current
    /// instant (used to test the code's expiry).
    pub fn step(self, event: RedeemEvent, now: i64) -> (r: (UsePromoCodeFlow, RedeemAction))
        ensures
            r == redeem_next(self, event, now),
    {
        let user = self.user_id;
        match self.stage {
            RedeemStage::AwaitCode => match event {
                RedeemEvent::CodeLookedUp(Err(err)) => Self::finish(user, Err(err)),
                RedeemEvent::CodeLookedUp(Ok(None)) => Self::finish(
                    user,
                    Err(AppError::PromoCodeNotFound),
                ),
                RedeemEvent::CodeLookedUp(Ok(Some(p))) => {
                    if p.is_used() {
                        Self::finish(user, Err(AppError::PromoCodeAlreadyUsed))
                    } else if p.is_expired_at(now) {
                        Self::finish(user, Err(AppError::PromoCodeExpired))
                    } else {
                        let id = p.id;
                        let a = RedeemAction::CheckUserRedeemed { user_id: user.clone(), promocode_id: id };
                        (UsePromoCodeFlow { user_id: user, stage: RedeemStage::AwaitUserRedeemed(p) }, a)
                    }
                },
                _ => Self::finish(user, Err(AppError::InternalError)),
            },
            RedeemStage::AwaitUserRedeemed(p) => match event {
                RedeemEvent::UserRedeemedChecked(Err(err)) => Self::finish(user, Err(err)),
                RedeemEvent::UserRedeemedChecked(Ok(true)) => Self::finish(
                    user,
                    Err(AppError::PromoCodeAlreadyUsed),
                ),
                RedeemEvent::UserRedeemedChecked(Ok(false)) => {
                    if p.reward_type == PromoCodeRewardType::Trial {
                        let a = RedeemAction::CountTrialRedemptions { user_id: user.clone() };
                        (UsePromoCodeFlow { user_id: user, stage: RedeemStage::AwaitTrialCount(p) }, a)
                    } else {
                        Self::grant(user, p)
                    }
                },
                _ => Self::finish(user, Err(AppError::InternalError)),
            },
            RedeemStage::AwaitTrialCount(p) => match event {
                RedeemEvent::TrialCounted(Err(err)) => Self::finish(user, Err(err)),
                RedeemEvent::TrialCounted(Ok(count)) => {
                    if count >= 1 {
                        Self::finish(user, Err(AppError::PromoCodeTrialLimitReached))
                    } else {
                        let a = RedeemAction::CheckDeviceTrial { user_id: user.clone() };
                        (UsePromoCodeFlow { user_id: user, stage: RedeemStage::AwaitDeviceTrial(p) }, a)
                    }
                },
                _ => Self::finish(user, Err(AppError::InternalError)),
            },
            RedeemStage::AwaitDeviceTrial(p) => match event {
                RedeemEvent::DeviceTrialChecked(Err(err)) => Self::finish(user, Err(err)),
                RedeemEvent::DeviceTrialChecked(Ok(true)) => Self::finish(
                    user,
                    Err(AppError::PromoCodeTrialLimitReached),
                ),
                RedeemEvent::DeviceTrialChecked(Ok(false)) => Self::grant(user, p),
                _ => Self::finish(user, Err(AppError::InternalError)),
            },
            RedeemStage::AwaitGrant(p) => match event {
                RedeemEvent::TrafficGranted(Err(err)) => Self::finish(user, Err(err)),
                RedeemEvent::TrafficGranted(Ok(())) => {
                    let id = p.id;
                    let a = RedeemAction::MarkAsUsed { promocode_id: id, user_id: user.clone() };
                    (UsePromoCodeFlow { user_id: user, stage: RedeemStage::AwaitMark(p) }, a)
                },
                _ => Self::finish(user, Err(AppError::InternalError)),
            },
            RedeemStage::AwaitMark(p) => match event {
                RedeemEvent::MarkedUsed(Err(err)) => Self::finish(user, Err(err)),
                RedeemEvent::MarkedUsed(Ok(())) => {
                    if p.reward_type == PromoCodeRewardType::Trial {
                        let a = RedeemAction::MarkDeviceTrial { user_id: user.clone() };
                        (UsePromoCodeFlow { user_id: user, stage: RedeemStage::AwaitDeviceMark(p) }, a)
                    } else {
                        Self::finish(user, Ok(Self::reward(&p)))
                    }
                },
                _ => Self::finish(user, Err(AppError::InternalError)),
            },
            RedeemStage::AwaitDeviceMark(p) => match event {
                RedeemEvent::DeviceTrialMarked(_) => Self::finish(user, Ok(Self::reward(&p))),
                _ => Self::finish(user, Err(AppError::InternalError)),
            },
            RedeemStage::Finished => Self::finish(user, Err(AppError::InternalError)),
        }
    }

    fn finish(user: String, r: Result<UsePromoCodeResult, AppError>) -> (res: (
        UsePromoCodeFlow,
        RedeemAction,
    ))
        ensures
            res == finished(user, r),
    {
        (UsePromoCodeFlow { user_id: user, stage: RedeemStage::Finished }, RedeemAction::Finish(r))
    }

    fn grant(user: String, p: PromoCode) -> (res: (UsePromoCodeFlow, RedeemAction))
        ensures
            res == at(user, RedeemStage::AwaitGrant(p), grant_action(user, p)),
    {
        let a = RedeemAction::GrantTraffic {
            user_id: user.clone(),
            bytes: p.reward_bytes,
            duration_days: p.duration_days as i64,
        };
        (UsePromoCodeFlow { user_id: user, stage: RedeemStage::AwaitGrant(p) }, a)
    }

    fn reward(p: &PromoCode) -> (r: UsePromoCodeResult)
        ensures
            r == reward_of(*p),
    {
        UsePromoCodeResult {
            reward_type: p.reward_type,
            reward_bytes: p.reward_bytes,
            duration_days: p.duration_days,
        }
    }
}

} // verus!

verus! {

/// A fresh redemption by `user`, waiting for the code lookup.
pub open spec fn fresh_flow(user: String) -> UsePromoCodeFlow {
    UsePromoCodeFlow { user_id: user, stage: RedeemStage::AwaitCode }
}

/// The actions that a redemption in state `f` requests when it is handed
/// the outcomes `events` in turn.
pub open spec fn redeem_actions(f: UsePromoCodeFlow, events: Seq<RedeemEvent>, now: i64) -> Seq<
    RedeemAction,
>
    decreases events.len(),
{
    if events.len() == 0 {
        Seq::empty()
    } else {
        let (f1, a) = redeem_next(f, events[0], now);
        seq![a] + redeem_actions(f1, events.drop_first(), now)
    }
}

proof fn lemma_actions_len(f: UsePromoCodeFlow, events: Seq<RedeemEvent>, now: i64)
    ensures
        redeem_actions(f, events, now).len() == events.len(),
    decreases events.len(),
{
    if events.len() > 0 {
        let (f1, a) = redeem_next(f, events[0], now);
        lemma_actions_len(f1, events.drop_first(), now);
    }
}

proof fn lemma_actions_unfold(f: UsePromoCodeFlow, events: Seq<RedeemEvent>, now: i64, k: int)
    requires
        0 <= k < events.len(),
    ensures
        redeem_actions(f, events, now)[0] == redeem_next(f, events[0], now).1,
        k > 0 ==> redeem_actions(f, events, now)[k] == redeem_actions(
            redeem_next(f, events[0], now).0,
            events.drop_first(),
            now,
        )[k - 1],
{
    let (f1, a) = redeem_next(f, events[0], now);
    lemma_actions_len(f1, events.drop_first(), now);
}

/// Stages from which no traffic grant can follow any more.
pub open spec fn past_grant(s: RedeemStage) -> bool {
    s is AwaitGrant || s is AwaitMark || s is AwaitDeviceMark || s is Finished
}

proof fn lemma_no_grant_after(f: UsePromoCodeFlow, events: Seq<RedeemEvent>, now: i64, k: int)
    requires
        past_grant(f.stage),
        0 <= k < events.len(),
    ensures
        !(redeem_actions(f, events, now)[k] is GrantTraffic),
        !(redeem_actions(f, events, now)[k] is CountTrialRedemptions),
        !(redeem_actions(f, events, now)[k] is CheckDeviceTrial),
    decreases k,
{
    lemma_actions_unfold(f, events, now, k);
    if k > 0 {
        lemma_no_grant_after(redeem_next(f, events[0], now).0, events.drop_first(), now, k - 1);
    }
}

/// Traffic is granted only after every check passed: the code was found,
/// its uses are not spent, it has not expired, this user has not redeemed it
/// before, and for a trial code the user has no trial redemption and the
/// device has not had a trial. The grant carries the code's reward.
pub proof fn lemma_grant_only_after_all_checks(
    user: String,
    events: Seq<RedeemEvent>,
    now: i64,
    k: int,
)
    requires
        0 <= k < events.len(),
        redeem_actions(fresh_flow(user), events, now)[k] is GrantTraffic,
    ensures
        exists|p: PromoCode|
            {
                &&& events[0] == RedeemEvent::CodeLookedUp(Ok(Some(p)))
                &&& !p.spec_is_used()
                &&& !p.spec_is_expired_at(now)
                &&& events[1] == RedeemEvent::UserRedeemedChecked(Ok(false))
                &&& redeem_actions(fresh_flow(user), events, now)[k] == grant_action(user, p)
                &&& if p.reward_type == PromoCodeRewardType::Trial {
                    &&& k == 3
                    &&& events[2] matches RedeemEvent::TrialCounted(Ok(c)) && c < 1
                    &&& events[3] == RedeemEvent::DeviceTrialChecked(Ok(false))
                } else {
                    k == 1
                }
            },
{
    let f0 = fresh_flow(user);
    lemma_actions_unfold(f0, events, now, k);
    assert(k > 0);
    let e1 = events.drop_first();
    let f1 = redeem_next(f0, events[0], now).0;
    if past_grant(f1.stage) {
        lemma_no_grant_after(f1, e1, now, k - 1);
    }
    let p = f1.stage->AwaitUserRedeemed_0;
    lemma_actions_unfold(f1, e1, now, k - 1);
    if k == 1 {
        return;
    }
    let e2 = e1.drop_first();
    let f2 = redeem_next(f1, e1[0], now).0;
    if past_grant(f2.stage) {
        lemma_no_grant_after(f2, e2, now, k - 2);
    }
    lemma_actions_unfold(f2, e2, now, k - 2);
    assert(k > 2);
    let e3 = e2.drop_first();
    let f3 = redeem_next(f2, e2[0], now).0;
    if past_grant(f3.stage) {
        lemma_no_grant_after(f3, e3, now, k - 3);
    }
    lemma_actions_unfold(f3, e3, now, k - 3);
    if k == 3 {
        assert(events[2] == e2[0]);
        assert(events[3] == e3[0]);
        return;
    }
    let f4 = redeem_next(f3, e3[0], now).0;
    lemma_no_grant_after(f4, e3.drop_first(), now, k - 4);
}

/// An add-type code never triggers the trial checks: no trial count and no
/// device lookup is requested.
pub proof fn lemma_add_code_skips_trial_checks(
    user: String,
    events: Seq<RedeemEvent>,
    now: i64,
    k: int,
    p: PromoCode,
)
    requires
        0 <= k < events.len(),
        events[0] == RedeemEvent::CodeLookedUp(Ok(Some(p))),
        p.reward_type == PromoCodeRewardType::Add,
    ensures
        !(redeem_actions(fresh_flow(user), events, now)[k] is CountTrialRedemptions),
        !(redeem_actions(fresh_flow(user), events, now)[k] is CheckDeviceTrial),
{
    let f0 = fresh_flow(user);
    lemma_actions_unfold(f0, events, now, k);
    if k == 0 {
        return;
    }
    let e1 = events.drop_first();
    let f1 = redeem_next(f0, events[0], now).0;
    if past_grant(f1.stage) {
        lemma_no_grant_after(f1, e1, now, k - 1);
        return;
    }
    lemma_actions_unfold(f1, e1, now, k - 1);
    if k == 1 {
        return;
    }
    let f2 = redeem_next(f1, e1[0], now).0;
    lemma_no_grant_after(f2, e1.drop_first(), now, k - 2);
}

proof fn lemma_mark_follows_grant_from(f: UsePromoCodeFlow, events: Seq<RedeemEvent>, now: i64, k: int)
    requires
        0 <= k < events.len(),
        redeem_actions(f, events, now)[k] is MarkAsUsed,
    ensures
        events[k] == RedeemEvent::TrafficGranted(Ok(())),
        k == 0 ==> f.stage is AwaitGrant,
        k > 0 ==> redeem_actions(f, events, now)[k - 1] is GrantTraffic,
    decreases k,
{
    lemma_actions_unfold(f, events, now, k);
    if k == 0 {
        assert(f.stage is AwaitGrant);
        if let RedeemEvent::TrafficGranted(Ok(u)) = events[0] {
            assert(u == ());
        }
    } else {
        let f1 = redeem_next(f, events[0], now).0;
        let e1 = events.drop_first();
        lemma_mark_follows_grant_from(f1, e1, now, k - 1);
        assert(events[k] == e1[k - 1]);
        if k > 1 {
            lemma_actions_unfold(f, events, now, k - 1);
        }
    }
}

/// A code is recorded as used only right after the traffic grant that the
/// redemption requested succeeded.
pub proof fn lemma_mark_only_after_successful_grant(
    user: String,
    events: Seq<RedeemEvent>,
    now: i64,
    k: int,
)
    requires
        0 <= k < events.len(),
        redeem_actions(fresh_flow(user), events, now)[k] is MarkAsUsed,
    ensures
        k > 0,
        redeem_actions(fresh_flow(user), events, now)[k - 1] is GrantTraffic,
        events[k] == RedeemEvent::TrafficGranted(Ok(())),
{
    lemma_mark_follows_grant_from(fresh_flow(user), events, now, k);
}

/// Once a redemption is finished it stays finished, and every further
/// outcome is answered with an internal error.
pub proof fn lemma_finished_is_final(f: UsePromoCodeFlow, e: RedeemEvent, now: i64)
    requires
        f.is_finished(),
    ensures
        redeem_next(f, e, now) == finished(f.user_id, Err(AppError::InternalError)),
{
}


/// The state of a redemption in state `f` after it took the first `i`
/// outcomes of `events`.
pub open spec fn flow_after(f: UsePromoCodeFlow, events: Seq<RedeemEvent>, now: i64, i: nat) -> UsePromoCodeFlow
    decreases i,
{
    if i == 0 {
        f
    } else {
        redeem_next(flow_after(f, events, now, (i - 1) as nat), events[i - 1], now).0
    }
}

proof fn lemma_flow_after_shift(f: UsePromoCodeFlow, events: Seq<RedeemEvent>, now: i64, i: nat)
    requires
        1 <= i <= events.len(),
    ensures
        flow_after(f, events, now, i) == flow_after(
            redeem_next(f, events[0], now).0,
            events.drop_first(),
            now,
            (i - 1) as nat,
        ),
    decreases i,
{
    let f1 = redeem_next(f, events[0], now).0;
    let ed = events.drop_first();
    if i == 1 {
        assert(flow_after(f, events, now, 1) == redeem_next(flow_after(f, events, now, 0), events[0], now).0);
    } else {
        let i1 = (i - 1) as nat;
        let i2 = (i - 2) as nat;
        lemma_flow_after_shift(f, events, now, i1);
        assert(events[i - 1] == ed[i2 as int]);
        assert(flow_after(f, events, now, i) == redeem_next(flow_after(f, events, now, i1), events[i - 1], now).0);
        assert(flow_after(f1, ed, now, i1) == redeem_next(flow_after(f1, ed, now, i2), ed[i2 as int], now).0);
    }
}

proof fn lemma_action_at(f: UsePromoCodeFlow, events: Seq<RedeemEvent>, now: i64, i: nat)
    requires
        i < events.len(),
    ensures
        redeem_actions(f, events, now)[i as int] == redeem_next(flow_after(f, events, now, i), events[i as int], now).1,
    decreases i,
{
    lemma_actions_unfold(f, events, now, i as int);
    if i > 0 {
        let f1 = redeem_next(f, events[0], now).0;
        lemma_action_at(f1, events.drop_first(), now, (i - 1) as nat);
        lemma_flow_after_shift(f, events, now, i);
        assert(events[i as int] == events.drop_first()[i - 1]);
    }
}

proof fn lemma_finished_stays(f: UsePromoCodeFlow, events: Seq<RedeemEvent>, now: i64, i: nat, j: nat)
    requires
        i <= j < events.len(),
        flow_after(f, events, now, i).is_finished(),
    ensures
        flow_after(f, events, now, j).is_finished(),
        redeem_actions(f, events, now)[j as int] == RedeemAction::Finish(Err(AppError::InternalError)),
    decreases j - i,
{
    if j > i {
        lemma_finished_stays(f, events, now, i, (j - 1) as nat);
    }
    lemma_action_at(f, events, now, j);
}

proof fn lemma_live_at(f: UsePromoCodeFlow, events: Seq<RedeemEvent>, now: i64, i: nat, k: nat)
    requires
        i <= k < events.len(),
        redeem_actions(f, events, now)[k as int] matches RedeemAction::Finish(Ok(_)),
    ensures
        !flow_after(f, events, now, i).is_finished(),
        redeem_actions(f, events, now)[i as int] == redeem_next(flow_after(f, events, now, i), events[i as int], now).1,
{
    lemma_action_at(f, events, now, i);
    if flow_after(f, events, now, i).is_finished() {
        lemma_finished_stays(f, events, now, i, k);
    }
}

/// A redemption succeeds only once the traffic grant and the record of the
/// use both succeeded, and it answers the code's reward; a trial redemption
/// has also asked to flag the user's device.
pub proof fn lemma_success_only_after_grant_and_mark(
    user: String,
    events: Seq<RedeemEvent>,
    now: i64,
    k: int,
)
    requires
        0 <= k < events.len(),
        redeem_actions(fresh_flow(user), events, now)[k] matches RedeemAction::Finish(Ok(_)),
    ensures
        exists|p: PromoCode|
            #![trigger reward_of(p)]
            {
                let acts = redeem_actions(fresh_flow(user), events, now);
                &&& events[0] == RedeemEvent::CodeLookedUp(Ok(Some(p)))
                &&& acts[k] == RedeemAction::Finish(Ok(reward_of(p)))
                &&& if p.reward_type == PromoCodeRewardType::Trial {
                    &&& k == 6
                    &&& acts[3] == grant_action(user, p)
                    &&& events[4] == RedeemEvent::TrafficGranted(Ok(()))
                    &&& acts[4] == (RedeemAction::MarkAsUsed { promocode_id: p.id, user_id: user })
                    &&& events[5] == RedeemEvent::MarkedUsed(Ok(()))
                    &&& acts[5] == (RedeemAction::MarkDeviceTrial { user_id: user })
                } else {
                    &&& k == 3
                    &&& acts[1] == grant_action(user, p)
                    &&& events[2] == RedeemEvent::TrafficGranted(Ok(()))
                    &&& acts[2] == (RedeemAction::MarkAsUsed { promocode_id: p.id, user_id: user })
                    &&& events[3] == RedeemEvent::MarkedUsed(Ok(()))
                }
            },
{
    let f0 = fresh_flow(user);
    let acts = redeem_actions(f0, events, now);
    lemma_live_at(f0, events, now, 0, k as nat);
    assert(k > 0);
    lemma_live_at(f0, events, now, 1, k as nat);
    let g1 = flow_after(f0, events, now, 1);
    let p = g1.stage->AwaitUserRedeemed_0;
    assert(k > 1);
    lemma_live_at(f0, events, now, 2, k as nat);
    assert(k > 2);
    lemma_live_at(f0, events, now, 3, k as nat);
    if p.reward_type == PromoCodeRewardType::Trial {
        assert(k > 3);
        lemma_live_at(f0, events, now, 4, k as nat);
        assert(k > 4);
        lemma_live_at(f0, events, now, 5, k as nat);
        assert(k > 5);
        lemma_live_at(f0, events, now, 6, k as nat);
        if k > 6 {
            lemma_live_at(f0, events, now, 7, k as nat);
        }
        assert(k == 6);
        assert(acts[k] == RedeemAction::Finish(Ok(reward_of(p))));
        assert(events[0] == RedeemEvent::CodeLookedUp(Ok(Some(p))));
        assert(acts[3] == grant_action(user, p));
        if let RedeemEvent::TrafficGranted(Ok(u)) = events[4] {
            assert(u == ());
        }
        if let RedeemEvent::MarkedUsed(Ok(u)) = events[5] {
            assert(u == ());
        }
        assert(acts[4] == (RedeemAction::MarkAsUsed { promocode_id: p.id, user_id: user }));
        assert(acts[5] == (RedeemAction::MarkDeviceTrial { user_id: user }));
    } else {
        if k > 3 {
            lemma_live_at(f0, events, now, 4, k as nat);
        }
        assert(k == 3);
        assert(acts[k] == RedeemAction::Finish(Ok(reward_of(p))));
        assert(events[0] == RedeemEvent::CodeLookedUp(Ok(Some(p))));
        assert(acts[1] == grant_action(user, p));
        if let RedeemEvent::TrafficGranted(Ok(u)) = events[2] {
            assert(u == ());
        }
        if let RedeemEvent::MarkedUsed(Ok(u)) = events[3] {
            assert(u == ());
        }
    }
}

/// The looked-up code decides the first answer: a failed lookup ends with
/// its error, a missing code with `PromoCodeNotFound`, a code whose uses are
/// spent with `PromoCodeAlreadyUsed`, an expired one (expiry at or before
/// `now`) with `PromoCodeExpired`; any other code goes on to ask whether this
/// user already redeemed it.
pub proof fn lemma_lookup_decides(user: String, found: Result<Option<PromoCode>, AppError>, now: i64)
    ensures
        ({
            let (g, a) = redeem_next(fresh_flow(user), RedeemEvent::CodeLookedUp(found), now);
            &&& g.user_id == user
            &&& match found {
                Err(err) => a == RedeemAction::Finish(Err(err)),
                Ok(None) => a == RedeemAction::Finish(Err(AppError::PromoCodeNotFound)),
                Ok(Some(p)) => if p.current_uses >= p.max_uses {
                    a == RedeemAction::Finish(Err(AppError::PromoCodeAlreadyUsed))
                } else if p.expires_at <= now {
                    a == RedeemAction::Finish(Err(AppError::PromoCodeExpired))
                } else {
                    &&& g.stage == RedeemStage::AwaitUserRedeemed(p)
                    &&& a == (RedeemAction::CheckUserRedeemed { user_id: user, promocode_id: p.id })
                },
            }
        }),
{
}

/// The per-user checks: a code this user already redeemed is
/// `PromoCodeAlreadyUsed`; for a trial code, a user with a trial redemption,
/// or whose device had a trial, is `PromoCodeTrialLimitReached`; an add code
/// is granted at once, a trial code after both trial checks; each failed
/// check ends with its error.
pub proof fn lemma_user_checks_decide(user: String, p: PromoCode, e: RedeemEvent, now: i64)
    ensures
        ({
            let (g, a) = redeem_next(
                UsePromoCodeFlow { user_id: user, stage: RedeemStage::AwaitUserRedeemed(p) },
                e,
                now,
            );
            match e {
                RedeemEvent::UserRedeemedChecked(Err(err)) => a == RedeemAction::Finish(Err(err)),
                RedeemEvent::UserRedeemedChecked(Ok(true)) => a == RedeemAction::Finish(
                    Err(AppError::PromoCodeAlreadyUsed),
                ),
                RedeemEvent::UserRedeemedChecked(Ok(false)) => if p.reward_type == PromoCodeRewardType::Trial {
                    a == (RedeemAction::CountTrialRedemptions { user_id: user })
                } else {
                    a == (RedeemAction::GrantTraffic {
                        user_id: user,
                        bytes: p.reward_bytes,
                        duration_days: p.duration_days as i64,
                    })
                },
                _ => a == RedeemAction::Finish(Err(AppError::InternalError)),
            }
        }),
        ({
            let (g, a) = redeem_next(
                UsePromoCodeFlow { user_id: user, stage: RedeemStage::AwaitTrialCount(p) },
                e,
                now,
            );
            match e {
                RedeemEvent::TrialCounted(Err(err)) => a == RedeemAction::Finish(Err(err)),
                RedeemEvent::TrialCounted(Ok(n)) => if n >= 1 {
                    a == RedeemAction::Finish(Err(AppError::PromoCodeTrialLimitReached))
                } else {
                    a == (RedeemAction::CheckDeviceTrial { user_id: user })
                },
                _ => a == RedeemAction::Finish(Err(AppError::InternalError)),
            }
        }),
        ({
            let (g, a) = redeem_next(
                UsePromoCodeFlow { user_id: user, stage: RedeemStage::AwaitDeviceTrial(p) },
                e,
                now,
            );
            match e {
                RedeemEvent::DeviceTrialChecked(Err(err)) => a == RedeemAction::Finish(Err(err)),
                RedeemEvent::DeviceTrialChecked(Ok(true)) => a == RedeemAction::Finish(
                    Err(AppError::PromoCodeTrialLimitReached),
                ),
                RedeemEvent::DeviceTrialChecked(Ok(false)) => a == (RedeemAction::GrantTraffic {
                    user_id: user,
                    bytes: p.reward_bytes,
                    duration_days: p.duration_days as i64,
                }),
                _ => a == RedeemAction::Finish(Err(AppError::InternalError)),
            }
        }),
{
}

/// After the grant: a failed grant ends with its error and records nothing;
/// a successful one records the use of this code by this user; a failed
/// record ends with its error; a recorded add code answers its reward, and a
/// recorded trial code asks to flag the device and then answers its reward
/// whatever the flagging gave.
pub proof fn lemma_grant_and_record_decide(user: String, p: PromoCode, e: RedeemEvent, now: i64)
    ensures
        ({
            let (g, a) = redeem_next(UsePromoCodeFlow { user_id: user, stage: RedeemStage::AwaitGrant(p) }, e, now);
            match e {
                RedeemEvent::TrafficGranted(Err(err)) => a == RedeemAction::Finish(Err(err)),
                RedeemEvent::TrafficGranted(Ok(_)) => a == (RedeemAction::MarkAsUsed {
                    promocode_id: p.id,
                    user_id: user,
                }),
                _ => a == RedeemAction::Finish(Err(AppError::InternalError)),
            }
        }),
        ({
            let (g, a) = redeem_next(UsePromoCodeFlow { user_id: user, stage: RedeemStage::AwaitMark(p) }, e, now);
            match e {
                RedeemEvent::MarkedUsed(Err(err)) => a == RedeemAction::Finish(Err(err)),
                RedeemEvent::MarkedUsed(Ok(_)) => if p.reward_type == PromoCodeRewardType::Trial {
                    a == (RedeemAction::MarkDeviceTrial { user_id: user })
                } else {
                    a == RedeemAction::Finish(Ok(UsePromoCodeResult {
                        reward_type: p.reward_type,
                        reward_bytes: p.reward_bytes,
                        duration_days: p.duration_days,
                    }))
                },
                _ => a == RedeemAction::Finish(Err(AppError::InternalError)),
            }
        }),
        ({
            let (g, a) = redeem_next(
                UsePromoCodeFlow { user_id: user, stage: RedeemStage::AwaitDeviceMark(p) },
                e,
                now,
            );
            e is DeviceTrialMarked ==> a == RedeemAction::Finish(Ok(UsePromoCodeResult {
                reward_type: p.reward_type,
                reward_bytes: p.reward_bytes,
                duration_days: p.duration_days,
            }))
        }),
{
}

} // verus!
