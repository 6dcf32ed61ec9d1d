use vpn_hub::error::AppError;
use vpn_hub::promocode::code::{check_lookup_format, check_redeemable_format, generate_5char_code, normalize_code};
use vpn_hub::promocode::info::{GetPromoCodeInfoQuery, PromoCodeInfoDto, PromoCodeResponseDto, UsePromoCodeResponseDto};
use vpn_hub::promocode::model::{PromoCode, PromoCodeRewardType};
use vpn_hub::promocode::redeem::{RedeemAction, RedeemEvent, RedeemStage, UsePromoCodeFlow, UsePromoCodeResult};
use vpn_hub::promocode::store::{creator_filter, parse_user_uuid, prepare_new_promocode};
use vpn_hub::promocode::trial::{IssueTrialFlow, TrialAction, TrialEvent, TRIAL_DURATION_DAYS, TRIAL_TRAFFIC_BYTES};

use uuid::Uuid;

const DAY_US: i64 = 86_400_000_000;

fn now_us() -> i64 {
    chrono::Utc::now().timestamp_micros()
}

fn promo(code: &str, reward_type: PromoCodeRewardType, reward_bytes: i64, duration_days: i32, max_uses: i32, current_uses: i32, expires_at: i64) -> PromoCode {
    PromoCode {
        id: Uuid::new_v4().as_u128(),
        code: code.to_string(),
        reward_type,
        reward_bytes,
        duration_days,
        max_uses,
        current_uses,
        created_by_user_id: None,
        expires_at,
        created_at: now_us(),
    }
}

#[derive(Default)]
struct MockPromoCodeRepository {
    codes: Vec<PromoCode>,
    redemptions: Vec<(u128, String)>,
}

impl MockPromoCodeRepository {
    fn find_by_code(&self, code: &str) -> Option<PromoCode> {
        self.codes.iter().find(|c| c.code.eq_ignore_ascii_case(code)).cloned()
    }

    fn has_user_redeemed_code(&self, user_id: &str, promocode_id: u128) -> bool {
        self.redemptions.iter().any(|(pid, u)| *pid == promocode_id && u == user_id)
    }

    fn count_user_redeemed_reward_type(&self, user_id: &str) -> i64 {
        self.redemptions.iter().filter(|(_, u)| u == user_id).count() as i64
    }

    fn mark_as_used(&mut self, code_id: u128, user_id: &str) {
        if let Some(c) = self.codes.iter_mut().find(|c| c.id == code_id) {
            c.current_uses += 1;
        }
        self.redemptions.push((code_id, user_id.to_string()));
    }
}

#[derive(Default)]
struct MockPromoTrafficService {
    granted: Vec<(String, i64, i64)>,
}

#[derive(Default)]
struct MockAbuseShieldService {
    redeemed_users: Vec<String>,
}

struct UsePromoCodeCommand {
    repo: MockPromoCodeRepository,
    promo_traffic_service: MockPromoTrafficService,
    abuse_shield_service: MockAbuseShieldService,
}

impl UsePromoCodeCommand {
    fn new(repo: MockPromoCodeRepository, promo_traffic_service: MockPromoTrafficService, abuse_shield_service: MockAbuseShieldService) -> Self {
        UsePromoCodeCommand { repo, promo_traffic_service, abuse_shield_service }
    }

    fn execute(&mut self, user_id: &str, raw_code: &str) -> Result<UsePromoCodeResult, AppError> {
        let now = now_us();
        let (mut flow, mut action) = UsePromoCodeFlow::start(user_id.to_string(), raw_code);
        loop {
            let event = match action {
                RedeemAction::Finish(r) => return r,
                RedeemAction::FindByCode { code } => RedeemEvent::CodeLookedUp(Ok(self.repo.find_by_code(&code))),
                RedeemAction::CheckUserRedeemed { user_id, promocode_id } => {
                    RedeemEvent::UserRedeemedChecked(Ok(self.repo.has_user_redeemed_code(&user_id, promocode_id)))
                }
                RedeemAction::CountTrialRedemptions { user_id } => {
                    RedeemEvent::TrialCounted(Ok(self.repo.count_user_redeemed_reward_type(&user_id)))
                }
                RedeemAction::CheckDeviceTrial { user_id } => {
                    RedeemEvent::DeviceTrialChecked(Ok(self.abuse_shield_service.redeemed_users.contains(&user_id)))
                }
                RedeemAction::GrantTraffic { user_id, bytes, duration_days } => {
                    self.promo_traffic_service.granted.push((user_id, bytes, duration_days));
                    RedeemEvent::TrafficGranted(Ok(()))
                }
                RedeemAction::MarkAsUsed { promocode_id, user_id } => {
                    self.repo.mark_as_used(promocode_id, &user_id);
                    RedeemEvent::MarkedUsed(Ok(()))
                }
                RedeemAction::MarkDeviceTrial { user_id } => {
                    self.abuse_shield_service.redeemed_users.push(user_id);
                    RedeemEvent::DeviceTrialMarked(Ok(()))
                }
            };
            let (f, a) = flow.step(event, now);
            flow = f;
            action = a;
        }
    }
}

fn trial_code(code: &str, max_uses: i32) -> PromoCode {
    promo(code, PromoCodeRewardType::Trial, 10 * 1024 * 1024 * 1024, 7, max_uses, 0, now_us() + 30 * DAY_US)
}

#[test]
fn test_generate_5char_code() {
    let code = generate_5char_code();
    assert_eq!(code.len(), 5);
    assert!(code.chars().all(|c| c.is_ascii_alphanumeric() && !c.is_ascii_lowercase()));
}

#[test]
fn generated_codes_avoid_confusable_chars() {
    for _ in 0..200 {
        let code = generate_5char_code();
        assert_eq!(code.chars().count(), 5);
        assert!(code.chars().all(|c| "ABCDEFGHJKLMNPQRSTUVWXYZ23456789".contains(c)));
    }
}

#[test]
fn test_use_promocode_success() {
    let mut repo = MockPromoCodeRepository::default();
    repo.codes.push(trial_code("TEST1", 1));
    let mut cmd = UsePromoCodeCommand::new(repo, MockPromoTrafficService::default(), MockAbuseShieldService::default());
    let user_id = Uuid::new_v4().to_string();

    let result = cmd.execute(&user_id, "test1").unwrap();
    assert_eq!(result.reward_type, PromoCodeRewardType::Trial);
    assert_eq!(result.duration_days, 7);

    assert_eq!(cmd.promo_traffic_service.granted.len(), 1);
    assert_eq!(cmd.promo_traffic_service.granted[0].0, user_id);

    let err = cmd.execute(&user_id, "TEST1").unwrap_err();
    assert!(matches!(err, AppError::PromoCodeAlreadyUsed));
}

#[test]
fn test_use_promocode_multi_use_success() {
    let mut repo = MockPromoCodeRepository::default();
    repo.codes.push(trial_code("MULTI", 2));
    let mut cmd = UsePromoCodeCommand::new(repo, MockPromoTrafficService::default(), MockAbuseShieldService::default());
    let user1 = Uuid::new_v4().to_string();
    let user2 = Uuid::new_v4().to_string();
    let user3 = Uuid::new_v4().to_string();

    assert!(cmd.execute(&user1, "MULTI").is_ok());
    let err_same = cmd.execute(&user1, "MULTI").unwrap_err();
    assert!(matches!(err_same, AppError::PromoCodeAlreadyUsed));
    assert!(cmd.execute(&user2, "MULTI").is_ok());
    let err_depleted = cmd.execute(&user3, "MULTI").unwrap_err();
    assert!(matches!(err_depleted, AppError::PromoCodeAlreadyUsed));
}

#[test]
fn test_use_promocode_trial_limit_one() {
    let mut repo = MockPromoCodeRepository::default();
    for i in 1..=2 {
        repo.codes.push(trial_code(&format!("TRIA{}", i), 1));
    }
    let mut cmd = UsePromoCodeCommand::new(repo, MockPromoTrafficService::default(), MockAbuseShieldService::default());
    let user_id = Uuid::new_v4().to_string();

    assert!(cmd.execute(&user_id, "TRIA1").is_ok());
    let err = cmd.execute(&user_id, "TRIA2").unwrap_err();
    assert!(matches!(err, AppError::PromoCodeTrialLimitReached));
}

#[test]
fn test_use_promocode_invalid_length() {
    let mut cmd = UsePromoCodeCommand::new(MockPromoCodeRepository::default(), MockPromoTrafficService::default(), MockAbuseShieldService::default());
    let err = cmd.execute("user1", "TOOLONG123").unwrap_err();
    assert!(matches!(err, AppError::PromoCodeInvalidFormat));
}

#[test]
fn test_use_promocode_add_reward_type() {
    let mut repo = MockPromoCodeRepository::default();
    repo.codes.push(promo("ADD50", PromoCodeRewardType::Add, 50 * 1024 * 1024 * 1024, 30, 10, 0, now_us() + 30 * DAY_US));
    let mut cmd = UsePromoCodeCommand::new(repo, MockPromoTrafficService::default(), MockAbuseShieldService::default());
    let user1 = Uuid::new_v4().to_string();

    let result = cmd.execute(&user1, "ADD50").unwrap();
    assert_eq!(result.reward_type, PromoCodeRewardType::Add);
    assert_eq!(result.duration_days, 30);
    assert_eq!(result.reward_bytes, 50 * 1024 * 1024 * 1024);

    assert_eq!(cmd.promo_traffic_service.granted.len(), 1);
    assert_eq!(cmd.promo_traffic_service.granted[0].0, user1);
}

#[test]
fn test_use_promocode_not_found() {
    let mut cmd = UsePromoCodeCommand::new(MockPromoCodeRepository::default(), MockPromoTrafficService::default(), MockAbuseShieldService::default());
    let err = cmd.execute("user1", "NOEXI").unwrap_err();
    assert!(matches!(err, AppError::PromoCodeNotFound));
}

#[test]
fn test_use_promocode_expired() {
    let mut repo = MockPromoCodeRepository::default();
    let mut p = promo("EXPI1", PromoCodeRewardType::Trial, 10 * 1024 * 1024 * 1024, 7, 10, 0, now_us() - DAY_US);
    p.created_at = now_us() - 30 * DAY_US;
    repo.codes.push(p);
    let mut cmd = UsePromoCodeCommand::new(repo, MockPromoTrafficService::default(), MockAbuseShieldService::default());
    let err = cmd.execute("user1", "EXPI1").unwrap_err();
    assert!(matches!(err, AppError::PromoCodeExpired));
}

#[test]
fn test_use_promocode_non_alphanumeric() {
    let mut cmd = UsePromoCodeCommand::new(MockPromoCodeRepository::default(), MockPromoTrafficService::default(), MockAbuseShieldService::default());
    let err = cmd.execute("user1", "TR!AL").unwrap_err();
    assert!(matches!(err, AppError::PromoCodeInvalidFormat));
}

#[test]
fn test_use_promocode_device_abuse_shield_blocked() {
    let user_id = Uuid::new_v4().to_string();
    let mut shield = MockAbuseShieldService::default();
    shield.redeemed_users.push(user_id.clone());
    let mut repo = MockPromoCodeRepository::default();
    repo.codes.push(trial_code("TRIA3", 10));
    let mut cmd = UsePromoCodeCommand::new(repo, MockPromoTrafficService::default(), shield);
    let err = cmd.execute(&user_id, "TRIA3").unwrap_err();
    assert!(matches!(err, AppError::PromoCodeTrialLimitReached));
}

#[test]
fn test_use_promocode_add_type_allows_multiple_codes() {
    let mut repo = MockPromoCodeRepository::default();
    for i in 1..=2 {
        repo.codes.push(promo(&format!("ADD0{}", i), PromoCodeRewardType::Add, 5 * 1024 * 1024 * 1024, 30, 10, 0, now_us() + 30 * DAY_US));
    }
    let mut cmd = UsePromoCodeCommand::new(repo, MockPromoTrafficService::default(), MockAbuseShieldService::default());
    let user_id = Uuid::new_v4().to_string();

    assert!(cmd.execute(&user_id, "ADD01").is_ok());
    assert!(cmd.execute(&user_id, "ADD02").is_ok());
    assert_eq!(cmd.promo_traffic_service.granted.len(), 2);
}

#[test]
fn redeem_trims_and_uppercases_the_code() {
    let mut repo = MockPromoCodeRepository::default();
    repo.codes.push(promo("ABC12", PromoCodeRewardType::Add, 1024, 30, 10, 0, now_us() + DAY_US));
    let mut cmd = UsePromoCodeCommand::new(repo, MockPromoTrafficService::default(), MockAbuseShieldService::default());
    assert!(cmd.execute("u", "  abc12\t\n").is_ok());
    let (_, action) = UsePromoCodeFlow::start("u".to_string(), " x1y2z ");
    match action {
        RedeemAction::FindByCode { code } => assert_eq!(code, "X1Y2Z"),
        other => panic!("unexpected {:?}", other),
    }
}

#[test]
fn redeem_rejects_codes_of_other_byte_lengths() {
    // Five chars but more than five bytes.
    let (flow, action) = UsePromoCodeFlow::start("u".to_string(), "ÀBCDE");
    assert!(matches!(flow.stage, RedeemStage::Finished));
    assert!(matches!(action, RedeemAction::Finish(Err(AppError::PromoCodeInvalidFormat))));
    assert!(!check_redeemable_format("ABCD"));
    assert!(check_redeemable_format("AB3D9"));
}

#[test]
fn grant_carries_the_code_reward_and_precedes_marking() {
    // Law: traffic is granted only after every check, with the code's reward;
    // the code is marked used right after the grant.
    let p = promo("TRIAL", PromoCodeRewardType::Trial, 777, 9, 3, 1, now_us() + DAY_US);
    let id = p.id;
    let now = now_us();
    let (flow, a0) = UsePromoCodeFlow::start("user".to_string(), "trial");
    assert!(matches!(a0, RedeemAction::FindByCode { .. }));
    let (flow, a1) = flow.step(RedeemEvent::CodeLookedUp(Ok(Some(p))), now);
    assert!(matches!(a1, RedeemAction::CheckUserRedeemed { promocode_id, .. } if promocode_id == id));
    let (flow, a2) = flow.step(RedeemEvent::UserRedeemedChecked(Ok(false)), now);
    assert!(matches!(a2, RedeemAction::CountTrialRedemptions { .. }));
    let (flow, a3) = flow.step(RedeemEvent::TrialCounted(Ok(0)), now);
    assert!(matches!(a3, RedeemAction::CheckDeviceTrial { .. }));
    let (flow, a4) = flow.step(RedeemEvent::DeviceTrialChecked(Ok(false)), now);
    match a4 {
        RedeemAction::GrantTraffic { user_id, bytes, duration_days } => {
            assert_eq!(user_id, "user");
            assert_eq!(bytes, 777);
            assert_eq!(duration_days, 9);
        }
        other => panic!("unexpected {:?}", other),
    }
    let (flow, a5) = flow.step(RedeemEvent::TrafficGranted(Ok(())), now);
    assert!(matches!(a5, RedeemAction::MarkAsUsed { promocode_id, .. } if promocode_id == id));
    let (flow, a6) = flow.step(RedeemEvent::MarkedUsed(Ok(())), now);
    assert!(matches!(a6, RedeemAction::MarkDeviceTrial { .. }));
    // Law: success comes only after the grant and the mark, with the
    // code's reward. A failure to flag the device does not undo it.
    let (flow, a7) = flow.step(RedeemEvent::DeviceTrialMarked(Err(AppError::InternalError)), now);
    match a7 {
        RedeemAction::Finish(Ok(r)) => {
            assert_eq!(r, UsePromoCodeResult { reward_type: PromoCodeRewardType::Trial, reward_bytes: 777, duration_days: 9 });
        }
        other => panic!("unexpected {:?}", other),
    }
    assert!(flow.finished());
    // Law: a finished redemption stays finished.
    let (flow, a8) = flow.step(RedeemEvent::TrafficGranted(Ok(())), now);
    assert!(flow.finished());
    assert!(matches!(a8, RedeemAction::Finish(Err(AppError::InternalError))));
}

#[test]
fn failed_grant_does_not_mark_the_code() {
    let p = promo("ADD77", PromoCodeRewardType::Add, 5, 1, 3, 0, now_us() + DAY_US);
    let now = now_us();
    let (flow, _) = UsePromoCodeFlow::start("user".to_string(), "ADD77");
    let (flow, _) = flow.step(RedeemEvent::CodeLookedUp(Ok(Some(p))), now);
    let (flow, a) = flow.step(RedeemEvent::UserRedeemedChecked(Ok(false)), now);
    // Law: add codes skip the trial checks.
    assert!(matches!(a, RedeemAction::GrantTraffic { .. }));
    let (flow, a) = flow.step(RedeemEvent::TrafficGranted(Err(AppError::DatabaseError("down".to_string()))), now);
    assert!(flow.finished());
    assert_eq!(a.finish_error(), Some(AppError::DatabaseError("down".to_string())));
}

trait FinishError {
    fn finish_error(self) -> Option<AppError>;
}

impl FinishError for RedeemAction {
    fn finish_error(self) -> Option<AppError> {
        match self {
            RedeemAction::Finish(Err(e)) => Some(e),
            _ => None,
        }
    }
}

#[test]
fn used_up_code_is_refused_before_expiry_check() {
    let p = promo("USED1", PromoCodeRewardType::Add, 5, 1, 2, 2, now_us() - DAY_US);
    let (flow, _) = UsePromoCodeFlow::start("user".to_string(), "USED1");
    let (_, a) = flow.step(RedeemEvent::CodeLookedUp(Ok(Some(p))), now_us());
    assert_eq!(a.finish_error(), Some(AppError::PromoCodeAlreadyUsed));
}

#[test]
fn code_expiring_exactly_now_is_expired() {
    let now = now_us();
    let p = promo("EDGE1", PromoCodeRewardType::Add, 5, 1, 2, 0, now);
    assert!(p.is_expired_at(now));
    assert!(!p.is_expired_at(now - 1));
    let (flow, _) = UsePromoCodeFlow::start("user".to_string(), "EDGE1");
    let (_, a) = flow.step(RedeemEvent::CodeLookedUp(Ok(Some(p))), now);
    assert_eq!(a.finish_error(), Some(AppError::PromoCodeExpired));
    let far = promo("EDGE2", PromoCodeRewardType::Add, 5, 1, 2, 0, now + 365 * DAY_US);
    assert!(!far.is_expired());
    let past = promo("EDGE3", PromoCodeRewardType::Add, 5, 1, 2, 0, now - 1);
    assert!(past.is_expired());
}

#[test]
fn store_errors_end_the_redemption() {
    let (flow, _) = UsePromoCodeFlow::start("user".to_string(), "ABCDE");
    let (flow, a) = flow.step(RedeemEvent::CodeLookedUp(Err(AppError::InternalError)), now_us());
    assert!(flow.finished());
    assert_eq!(a.finish_error(), Some(AppError::InternalError));
}

#[test]
fn reward_type_names_and_parsing() {
    assert_eq!(PromoCodeRewardType::Trial.as_str(), "TRIAL");
    assert_eq!(PromoCodeRewardType::Add.as_str(), "ADD");
    assert_eq!(PromoCodeRewardType::Add.to_string(), "ADD");
    assert_eq!(PromoCodeRewardType::parse("trial"), Ok(PromoCodeRewardType::Trial));
    assert_eq!(PromoCodeRewardType::parse("Add"), Ok(PromoCodeRewardType::Add));
    assert_eq!("TRIAL".parse::<PromoCodeRewardType>(), Ok(PromoCodeRewardType::Trial));
    assert_eq!(PromoCodeRewardType::parse("bonus"), Err("Unknown reward type: bonus".to_string()));
    assert_eq!(PromoCodeRewardType::parse_or_trial("weird"), PromoCodeRewardType::Trial);
    assert_eq!(PromoCodeRewardType::parse_or_trial("add"), PromoCodeRewardType::Add);
    assert_eq!(PromoCodeRewardType::from_uppercase("ADD", "x"), Ok(PromoCodeRewardType::Add));
    assert_eq!(PromoCodeRewardType::from_uppercase("add", "add"), Err("Unknown reward type: add".to_string()));
    // Law: each name parses back to its type, whatever its case.
    for t in [PromoCodeRewardType::Trial, PromoCodeRewardType::Add] {
        assert_eq!(t.as_str().parse::<PromoCodeRewardType>(), Ok(t));
        assert_eq!(t.to_string().to_lowercase().parse::<PromoCodeRewardType>(), Ok(t));
    }
    assert_eq!("tRiAl".parse::<PromoCodeRewardType>(), Ok(PromoCodeRewardType::Trial));
}

#[test]
fn code_normalization_is_idempotent() {
    // Law: normalizing a typed code twice is normalizing it once.
    for raw in ["  ab1cd ", "A B\t", "", "xyz", "\n9zZ9\n"] {
        let once = normalize_code(raw);
        assert_eq!(normalize_code(&once), once);
    }
    assert_eq!(normalize_code("  ab1cd "), "AB1CD");
}

#[test]
fn earliest_chrono_instant_is_accepted() {
    let p = promo("EARLY", PromoCodeRewardType::Add, 1, 1, 1, 0, vpn_hub::interop::MIN_TIMESTAMP_US);
    let d = PromoCodeResponseDto::from_promocode(p);
    assert!(d.expires_at.starts_with("-262143-01-01T00:00:00"));
}

#[test]
fn code_normalization_and_lookup_format() {
    assert_eq!(normalize_code("  ab\u{2003}"), "AB");
    assert_eq!(normalize_code("straße"), "STRASSE");
    assert!(check_lookup_format("A"));
    assert!(check_lookup_format("ABCDEFGHIJKLMNOP"));
    assert!(!check_lookup_format("ABCDEFGHIJKLMNOPQ"));
    assert!(!check_lookup_format(""));
}

#[test]
fn test_get_promocode_info_success() {
    let mut repo = MockPromoCodeRepository::default();
    let mut p = trial_code("INFO1", 10);
    p.current_uses = 3;
    repo.codes.push(p);

    let query = GetPromoCodeInfoQuery::new();
    let code = query.lookup_code("info1").unwrap();
    let res = query.resolve(Ok(repo.find_by_code(&code))).unwrap();
    assert_eq!(res.code, "INFO1");
    assert_eq!(res.max_uses, 10);
    assert_eq!(res.current_uses, 3);
}

#[test]
fn test_get_promocode_info_not_found() {
    let repo = MockPromoCodeRepository::default();
    let query = GetPromoCodeInfoQuery::new();
    let code = query.lookup_code("NONEXISTENT").unwrap();
    let err = query.resolve(Ok(repo.find_by_code(&code))).unwrap_err();
    assert!(matches!(err, AppError::PromoCodeNotFound));
}

#[test]
fn info_query_rejects_blank_and_long_codes() {
    let query = GetPromoCodeInfoQuery::new();
    assert!(matches!(query.lookup_code("   "), Err(AppError::PromoCodeInvalidFormat)));
    assert!(matches!(query.lookup_code("ABCDEFGHIJKLMNOPQ"), Err(AppError::PromoCodeInvalidFormat)));
    assert!(matches!(query.resolve(Err(AppError::InternalError)), Err(AppError::InternalError)));
}

#[test]
fn promo_code_dtos() {
    let mut p = promo("INFO2", PromoCodeRewardType::Add, 2048, 30, 5, 7, 0);
    p.id = 0x0123_4567_89ab_cdef_0011_2233_4455_6677;
    let info = PromoCodeInfoDto::from_promocode_at(p.clone(), 1);
    assert_eq!(info.id, "01234567-89ab-cdef-0011-223344556677");
    assert_eq!(info.reward_type, "ADD");
    assert_eq!(info.remaining_uses, 0);
    assert!(info.is_used);
    assert!(info.is_expired);
    assert_eq!(info.expires_at, "1970-01-01T00:00:00+00:00");

    p.current_uses = 2;
    p.expires_at = DAY_US + 1_500_250;
    let info = PromoCodeInfoDto::from_promocode_at(p.clone(), 0);
    assert_eq!(info.remaining_uses, 3);
    assert!(!info.is_used);
    assert!(!info.is_expired);
    // Microseconds are kept.
    assert_eq!(info.expires_at, "1970-01-02T00:00:01.500250+00:00");

    let dto = PromoCodeResponseDto::from_promocode(p.clone());
    assert_eq!(dto.id, "01234567-89ab-cdef-0011-223344556677");
    assert_eq!(dto.code, "INFO2");
    assert_eq!(dto.max_uses, 5);
    let info = PromoCodeInfoDto::from_promocode(p);
    assert!(!info.is_expired || info.is_expired);

    let r = UsePromoCodeResponseDto::from_result(UsePromoCodeResult { reward_type: PromoCodeRewardType::Trial, reward_bytes: 1, duration_days: 2 });
    assert_eq!(r.reward_type, "TRIAL");
    assert_eq!(r.reward_bytes, 1);
    assert_eq!(r.duration_days, 2);
}

#[test]
fn store_inputs_are_prepared() {
    let user = Uuid::new_v4();
    assert_eq!(parse_user_uuid(&user.to_string()), Ok(user.as_u128()));
    match parse_user_uuid("not-a-uuid") {
        Err(AppError::ValidationError(m)) => assert!(m.starts_with("Invalid UUID format: ")),
        other => panic!("unexpected {:?}", other),
    }
    assert_eq!(creator_filter(None), Ok(None));
    assert_eq!(creator_filter(Some(&user.to_string())), Ok(Some(user.as_u128())));
    let row = prepare_new_promocode("ab1cd", PromoCodeRewardType::Trial, 10, 7, Some(&user.to_string()), 30, 1_000).unwrap();
    assert_eq!(row.code, "AB1CD");
    assert_eq!(row.reward_type, "TRIAL");
    assert_eq!(row.created_by_user_id, Some(user.as_u128()));
    assert_eq!(row.expires_at, 1_000 + 30 * DAY_US);
    assert!(matches!(prepare_new_promocode("x", PromoCodeRewardType::Add, 1, 1, Some("zzz"), 1, 0), Err(AppError::ValidationError(_))));
}

#[derive(Default)]
struct MockTrialRepository {
    codes: Vec<PromoCode>,
}

impl MockTrialRepository {
    fn run(&mut self, user_id: Option<&str>) -> Result<PromoCode, AppError> {
        let (mut flow, mut action) = IssueTrialFlow::start(user_id.map(|s| s.to_string()));
        loop {
            let event = match action {
                TrialAction::Finish(r) => return r,
                TrialAction::FindActiveTrial { user_id } => {
                    let found = match user_id {
                        None => None,
                        Some(id) => {
                            let uid = Uuid::parse_str(&id).unwrap().as_u128();
                            self.codes
                                .iter()
                                .find(|c| c.created_by_user_id == Some(uid) && !c.is_used() && !c.is_expired())
                                .cloned()
                        }
                    };
                    TrialEvent::ActiveTrialLookedUp(Ok(found))
                }
                TrialAction::FindByCode { code } => {
                    TrialEvent::CodeLookedUp(Ok(self.codes.iter().find(|c| c.code.eq_ignore_ascii_case(&code)).cloned()))
                }
                TrialAction::CreatePromoCode { code, reward_type, reward_bytes, duration_days, created_by_user_id, expires_in_days } => {
                    let p = PromoCode {
                        id: Uuid::new_v4().as_u128(),
                        code,
                        reward_type,
                        reward_bytes,
                        duration_days,
                        max_uses: 1,
                        current_uses: 0,
                        created_by_user_id: created_by_user_id.map(|s| Uuid::parse_str(&s).unwrap().as_u128()),
                        expires_at: now_us() + expires_in_days * DAY_US,
                        created_at: now_us(),
                    };
                    self.codes.push(p.clone());
                    TrialEvent::Created(Ok(p))
                }
            };
            let (f, a) = flow.step(event);
            flow = f;
            action = a;
        }
    }
}

#[test]
fn test_get_or_create_trial_command() {
    let mut repo = MockTrialRepository::default();
    let user_id = Uuid::new_v4().to_string();

    let code1 = repo.run(Some(&user_id)).unwrap();
    assert_eq!(code1.code.len(), 5);
    assert_eq!(code1.reward_type, PromoCodeRewardType::Trial);

    let code2 = repo.run(Some(&user_id)).unwrap();
    assert_eq!(code1.code, code2.code);

    let code_anon = repo.run(None).unwrap();
    assert_eq!(code_anon.code.len(), 5);
}

#[test]
fn trial_code_has_trial_reward() {
    let mut repo = MockTrialRepository::default();
    let p = repo.run(None).unwrap();
    assert_eq!(p.reward_bytes, TRIAL_TRAFFIC_BYTES);
    assert_eq!(p.reward_bytes, 10 * 1024 * 1024 * 1024);
    assert_eq!(p.duration_days, TRIAL_DURATION_DAYS);
    assert_eq!(p.duration_days, 7);
}

#[test]
fn trial_issuing_gives_up_after_ten_taken_codes() {
    // Law: at most ten lookups; a created code was just found free.
    let (mut flow, mut action) = IssueTrialFlow::start(None);
    let mut lookups = 0;
    let taken = promo("TAKEN", PromoCodeRewardType::Trial, 1, 1, 1, 0, 0);
    loop {
        let event = match action {
            TrialAction::Finish(r) => {
                assert!(matches!(r, Err(AppError::InternalError)));
                break;
            }
            TrialAction::FindActiveTrial { .. } => TrialEvent::ActiveTrialLookedUp(Ok(None)),
            TrialAction::FindByCode { .. } => {
                lookups += 1;
                TrialEvent::CodeLookedUp(Ok(Some(taken.clone())))
            }
            TrialAction::CreatePromoCode { .. } => panic!("no code was free"),
        };
        let (f, a) = flow.step(event);
        flow = f;
        action = a;
    }
    assert_eq!(lookups, 10);
}

#[test]
fn trial_creates_the_code_found_free() {
    let (flow, _) = IssueTrialFlow::start(Some("u1".to_string()));
    let (flow, a) = flow.step_with_code(TrialEvent::ActiveTrialLookedUp(Ok(None)), "ABCDE".to_string());
    assert!(matches!(a, TrialAction::FindByCode { ref code } if code == "ABCDE"));
    let (_, a) = flow.step_with_code(TrialEvent::CodeLookedUp(Ok(None)), "ZZZZZ".to_string());
    match a {
        TrialAction::CreatePromoCode { code, reward_type, created_by_user_id, expires_in_days, .. } => {
            assert_eq!(code, "ABCDE");
            assert_eq!(reward_type, PromoCodeRewardType::Trial);
            assert_eq!(created_by_user_id, Some("u1".to_string()));
            assert_eq!(expires_in_days, 30);
        }
        other => panic!("unexpected {:?}", other),
    }
}
