//! Looking a promo code up, and the promo code DTOs.

use vstd::prelude::*;

use crate::error::AppError;
use crate::interop::{
    now_micros, rfc3339_from_micros, spec_rfc3339_micros, uuid_text, uuid_to_string,
    valid_timestamp_us,
};
use super::code::{check_lookup_format, is_lookup_format, normalize_code, normalized_code};
use super::model::PromoCode;
use super::redeem::UsePromoCodeResult;

verus! {

/// Looking a promo code up by its text.
pub struct GetPromoCodeInfoQuery;

impl GetPromoCodeInfoQuery {
    pub fn new() -> (r: GetPromoCodeInfoQuery) {
        GetPromoCodeInfoQuery
    }

    /// The code to look up: the trimmed, uppercased text, which must be
    /// non-empty and at most 16 bytes long.
    pub fn lookup_code(&self, raw_code: &str) -> (r: Result<String, AppError>)
        ensures
            is_lookup_format(normalized_code(raw_code@)) ==> r is Ok && r->Ok_0@ == normalized_code(
                raw_code@,
            ),
            !is_lookup_format(normalized_code(raw_code@)) ==> r == Err::<String, AppError>(
                AppError::PromoCodeInvalidFormat,
            ),
    {
        let code = normalize_code(raw_code);
        if !check_lookup_format(code.as_str()) {
            return Err(AppError::PromoCodeInvalidFormat);
        }
        Ok(code)
    }

    /// The answer to the query, given what the store's lookup returned.
    pub fn resolve(&self, found: Result<Option<PromoCode>, AppError>) -> (r: Result<PromoCode, AppError>)
        ensures
            match found {
                Err(e) => r == Err::<PromoCode, AppError>(e),
                Ok(None) => r == Err::<PromoCode, AppError>(AppError::PromoCodeNotFound),
                Ok(Some(p)) => r == Ok::<PromoCode, AppError>(p),
            },
    {
        match found {
            Err(e) => Err(e),
            Ok(None) => Err(AppError::PromoCodeNotFound),
            Ok(Some(p)) => Ok(p),
        }
    }
}

/// A promo code as the API shows it.
#[derive(Debug)]
pub struct PromoCodeResponseDto {
    pub id: String,
    pub code: String,
    pub reward_type: String,
    pub reward_bytes: i64,
    pub duration_days: i32,
    pub max_uses: i32,
    pub current_uses: i32,
    pub expires_at: String,
}

impl PromoCodeResponseDto {
    pub fn from_promocode(p: PromoCode) -> (r: PromoCodeResponseDto)
        requires
            valid_timestamp_us(p.expires_at as int),
        ensures
            r.id@ == uuid_text(p.id),
            r.code == p.code,
            r.reward_type@ == p.reward_type.name(),
            r.reward_bytes == p.reward_bytes,
            r.duration_days == p.duration_days,
            r.max_uses == p.max_uses,
            r.current_uses == p.current_uses,
            r.expires_at@ == spec_rfc3339_micros(p.expires_at),
    {
        PromoCodeResponseDto {
            id: uuid_to_string(p.id),
            reward_type: p.reward_type.to_string(),
            reward_bytes: p.reward_bytes,
            duration_days: p.duration_days,
            max_uses: p.max_uses,
            current_uses: p.current_uses,
            expires_at: rfc3339_from_micros(p.expires_at),
            code: p.code,
        }
    }
}

/// A promo code with its usage state, as the info endpoint shows it.
#[derive(Debug)]
pub struct PromoCodeInfoDto {
    pub id: String,
    pub code: String,
    pub reward_type: String,
    pub reward_bytes: i64,
    pub duration_days: i32,
    pub max_uses: i32,
    pub current_uses: i32,
    pub remaining_uses: i32,
    pub is_expired: bool,
    pub is_used: bool,
    pub expires_at: String,
}

/// Uses left on a code: its limit minus its uses, but never below zero.
pub open spec fn remaining_uses(p: PromoCode) -> int {
    if p.max_uses - p.current_uses > 0 {
        p.max_uses - p.current_uses
    } else {
        0
    }
}

/// The subtraction of uses fits an `i32` (it overflows, and panics, only for
/// limits near the ends of the `i32` range).
pub open spec fn uses_difference_fits(p: PromoCode) -> bool {
    i32::MIN <= p.max_uses - p.current_uses <= i32::MAX
}

impl PromoCodeInfoDto {
    /// The info of `p` at instant `now`.
    pub fn from_promocode_at(p: PromoCode, now: i64) -> (r: PromoCodeInfoDto)
        requires
            valid_timestamp_us(p.expires_at as int),
            uses_difference_fits(p),
        ensures
            r.id@ == uuid_text(p.id),
            r.code == p.code,
            r.reward_type@ == p.reward_type.name(),
            r.reward_bytes == p.reward_bytes,
            r.duration_days == p.duration_days,
            r.max_uses == p.max_uses,
            r.current_uses == p.current_uses,
            r.remaining_uses == remaining_uses(p),
            r.is_expired == p.spec_is_expired_at(now),
            r.is_used == p.spec_is_used(),
            r.expires_at@ == spec_rfc3339_micros(p.expires_at),
    {
        let diff = p.max_uses - p.current_uses;
        let remaining = if diff > 0 {
            diff
        } else {
            0
        };
        let is_expired = p.is_expired_at(now);
        let is_used = p.is_used();
        PromoCodeInfoDto {
            id: uuid_to_string(p.id),
            reward_type: p.reward_type.to_string(),
            reward_bytes: p.reward_bytes,
            duration_days: p.duration_days,
            max_uses: p.max_uses,
            current_uses: p.current_uses,
            remaining_uses: remaining,
            is_expired,
            is_used,
            expires_at: rfc3339_from_micros(p.expires_at),
            code: p.code,
        }
    }

    /// The info of `p` now (the clock is read once).
    pub fn from_promocode(p: PromoCode) -> (r: PromoCodeInfoDto)
        requires
            valid_timestamp_us(p.expires_at as int),
            uses_difference_fits(p),
        ensures
            r.id@ == uuid_text(p.id),
            r.code == p.code,
            r.reward_type@ == p.reward_type.name(),
            r.reward_bytes == p.reward_bytes,
            r.duration_days == p.duration_days,
            r.max_uses == p.max_uses,
            r.current_uses == p.current_uses,
            r.remaining_uses == remaining_uses(p),
            exists|now: i64| valid_timestamp_us(now as int) && r.is_expired == p.spec_is_expired_at(now),
            r.is_used == p.spec_is_used(),
            r.expires_at@ == spec_rfc3339_micros(p.expires_at),
    {
        let now = now_micros();
        Self::from_promocode_at(p, now)
    }
}

/// What the redeem endpoint answers.
#[derive(Debug)]
pub struct UsePromoCodeResponseDto {
    pub reward_type: String,
    pub reward_bytes: i64,
    pub duration_days: i32,
}

impl UsePromoCodeResponseDto {
    pub fn from_result(r: UsePromoCodeResult) -> (d: UsePromoCodeResponseDto)
        ensures
            d.reward_type@ == r.reward_type.name(),
            d.reward_bytes == r.reward_bytes,
            d.duration_days == r.duration_days,
    {
        UsePromoCodeResponseDto {
            reward_type: r.reward_type.to_string(),
            reward_bytes: r.reward_bytes,
            duration_days: r.duration_days,
        }
    }
}

/// What the info of a code says at instant `now`: it is expired exactly when
/// its expiry is at or before `now`, used exactly when its uses reached its
/// limit, and the uses left are the limit minus the uses, never below zero.
pub proof fn lemma_info_at_instant(p: PromoCode, now: i64)
    ensures
        p.spec_is_expired_at(now) <==> p.expires_at <= now,
        p.spec_is_used() <==> p.current_uses >= p.max_uses,
        remaining_uses(p) >= 0,
        remaining_uses(p) == p.max_uses - p.current_uses || (remaining_uses(p) == 0 && p.max_uses
            <= p.current_uses),
{
}

} // verus!
