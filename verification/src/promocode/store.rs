//! What the promo code store computes before it queries the database.

use vstd::prelude::*;

use crate::error::AppError;
use crate::interop::{parse_uuid, spec_parse_uuid, uppercased, to_uppercase, valid_timestamp_us};
use crate::text::concat;
use super::model::PromoCodeRewardType;

verus! {

/// Microseconds in a day.
pub const US_PER_DAY: i64 = 86400000000i64;

/// The error for a user id that is not a UUID.
pub open spec fn invalid_uuid_message(parse_error: Seq<char>) -> Seq<char> {
    "Invalid UUID format: "@ + parse_error
}

/// What `parse_user_uuid` answers for the text `s`.
pub open spec fn parsed_user_uuid(s: Seq<char>, r: Result<u128, AppError>) -> bool {
    match spec_parse_uuid(s) {
        Ok(v) => r == Ok::<u128, AppError>(v),
        Err(e) => r matches Err(AppError::ValidationError(m)) && m@ == invalid_uuid_message(e),
    }
}

/// Parses a user id; a text that is not a UUID gives a validation error.
pub fn parse_user_uuid(s: &str) -> (r: Result<u128, AppError>)
    ensures
        parsed_user_uuid(s@, r),
{
    match parse_uuid(s) {
        Ok(v) => Ok(v),
        Err(e) => Err(AppError::ValidationError(concat("Invalid UUID format: ", e.as_str()))),
    }
}

/// The creator filter of an active-trial lookup: none for an anonymous
/// caller (the store then answers "no code" without a query).
pub fn creator_filter(user_id: Option<&str>) -> (r: Result<Option<u128>, AppError>)
    ensures
        match user_id {
            None => r == Ok::<Option<u128>, AppError>(None),
            Some(s) => match spec_parse_uuid(s@) {
                Ok(v) => r == Ok::<Option<u128>, AppError>(Some(v)),
                Err(e) => r matches Err(AppError::ValidationError(m)) && m@ == invalid_uuid_message(e),
            },
        },
{
    match user_id {
        None => Ok(None),
        Some(s) => match parse_user_uuid(s) {
            Ok(v) => Ok(Some(v)),
            Err(e) => Err(e),
        },
    }
}

/// The row that creating a promo code inserts.
#[derive(Debug)]
pub struct NewPromoCodeRow {
    pub code: String,
    pub reward_type: &'static str,
    pub reward_bytes: i64,
    pub duration_days: i32,
    pub created_by_user_id: Option<u128>,
    pub expires_at: i64,
}

/// The expiry instant `days` days after `now` fits chrono's range.
pub open spec fn expiry_in_range(now: i64, days: i64) -> bool {
    valid_timestamp_us(now + days * US_PER_DAY)
}

/// Prepares the insertion of a promo code at instant `now`: the code is
/// stored uppercased, the creator parsed as a UUID, and the expiry set
/// `expires_in_days` days after `now`.
pub fn prepare_new_promocode(
    code: &str,
    reward_type: PromoCodeRewardType,
    reward_bytes: i64,
    duration_days: i32,
    created_by_user_id: Option<&str>,
    expires_in_days: i64,
    now: i64,
) -> (r: Result<NewPromoCodeRow, AppError>)
    requires
        valid_timestamp_us(now as int),
        expiry_in_range(now, expires_in_days),
    ensures
        match created_by_user_id {
            Some(s) if spec_parse_uuid(s@) is Err => r matches Err(AppError::ValidationError(m))
                && m@ == invalid_uuid_message(spec_parse_uuid(s@)->Err_0),
            _ => r is Ok && ({
                let row = r->Ok_0;
                &&& row.code@ == uppercased(code@)
                &&& row.reward_type@ == reward_type.name()
                &&& row.reward_bytes == reward_bytes
                &&& row.duration_days == duration_days
                &&& row.created_by_user_id == match created_by_user_id {
                    Some(s) => Some(spec_parse_uuid(s@)->Ok_0),
                    None => None::<u128>,
                }
                &&& row.expires_at == now + expires_in_days * US_PER_DAY
            }),
        },
{
    let creator = match created_by_user_id {
        Some(s) => match parse_user_uuid(s) {
            Ok(v) => Some(v),
            Err(e) => {
                return Err(e);
            },
        },
        None => None,
    };
    // The product alone may leave the `i64` range, so it is taken in `i128`.
    let wide: i128 = now as i128 + (expires_in_days as i128) * (US_PER_DAY as i128);
    assert(wide == now + expires_in_days * US_PER_DAY);
    let expires_at = wide as i64;
    Ok(NewPromoCodeRow {
        code: to_uppercase(code),
        reward_type: reward_type.as_str(),
        reward_bytes,
        duration_days,
        created_by_user_id: creator,
        expires_at,
    })
}

} // verus!
