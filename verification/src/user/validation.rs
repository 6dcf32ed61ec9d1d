//! Validating and normalizing a profile update.

use vstd::prelude::*;
use vstd::string::*;

use crate::error::AppError;
use crate::text::{concat, is_trimmed, lemma_trim_idempotent, lemma_trimmed_is_trimmed, trim, trimmed};

verus! {

/// The body of a profile update.
#[derive(Debug, Clone)]
pub struct UpdateMeDto {
    /// 1 to 64 chars, when given.
    pub username: Option<String>,
    /// 1 to 128 chars, when given.
    pub password: Option<String>,
}

/// A profile update as the application takes it.
#[derive(Debug, Clone)]
pub struct UpdateMeInput {
    pub username: Option<String>,
    pub password: Option<String>,
}

impl UpdateMeInput {
    pub fn from_dto(dto: UpdateMeDto) -> (r: UpdateMeInput)
        ensures
            r.username == dto.username,
            r.password == dto.password,
    {
        UpdateMeInput { username: dto.username, password: dto.password }
    }
}

/// An optional field is valid when absent or of `min..=max` chars.
pub open spec fn length_ok(v: Option<String>, min: nat, max: nat) -> bool {
    match v {
        Some(s) => min <= s@.len() <= max,
        None => true,
    }
}

pub open spec fn username_error() -> Seq<char> {
    "username: Username must be between 1 and 64 characters"@
}

pub open spec fn password_error() -> Seq<char> {
    "password: Password cannot be empty"@
}

/// The validation message: each failing field's line, the username's first,
/// joined by newlines, after `Invalid input: `.
pub open spec fn update_me_error(dto: UpdateMeDto) -> Seq<char> {
    let u = !length_ok(dto.username, 1, 64);
    let p = !length_ok(dto.password, 1, 128);
    "Invalid input: "@ + if u && p {
        username_error() + "\n"@ + password_error()
    } else if u {
        username_error()
    } else {
        password_error()
    }
}

fn length_within(v: &Option<String>, min: usize, max: usize) -> (r: bool)
    ensures
        r == length_ok(*v, min as nat, max as nat),
{
    match v {
        Some(s) => {
            let n = s.as_str().unicode_len();
            min <= n && n <= max
        },
        None => true,
    }
}

/// Checks the lengths of a profile update: a username of 1 to 64 chars and
/// a password of 1 to 128 chars, each when given. When both fail, the
/// username's line comes first.
pub fn validate_update_me(payload: &UpdateMeDto) -> (r: Result<(), AppError>)
    ensures
        (length_ok(payload.username, 1, 64) && length_ok(payload.password, 1, 128)) ==> r is Ok,
        !(length_ok(payload.username, 1, 64) && length_ok(payload.password, 1, 128)) ==> (r matches Err(
            AppError::ValidationError(m),
        ) && m@ == update_me_error(*payload)),
{
    let u = !length_within(&payload.username, 1, 64);
    let p = !length_within(&payload.password, 1, 128);
    if !u && !p {
        return Ok(());
    }
    let detail = if u && p {
        let first = concat("username: Username must be between 1 and 64 characters", "\n");
        concat(first.as_str(), "password: Password cannot be empty")
    } else if u {
        "username: Username must be between 1 and 64 characters".to_string()
    } else {
        "password: Password cannot be empty".to_string()
    };
    Err(AppError::ValidationError(concat("Invalid input: ", detail.as_str())))
}

/// A field after normalization: trimmed, and absent when blank.
pub open spec fn normalized_field(field: Option<String>) -> Option<Seq<char>> {
    match field {
        Some(f) => if trimmed(f@).len() > 0 {
            Some(trimmed(f@))
        } else {
            None
        },
        None => None,
    }
}

pub fn normalize_optional_field(field: Option<String>) -> (r: Option<String>)
    ensures
        match normalized_field(field) {
            Some(v) => r matches Some(s) && s@ == v,
            None => r is None,
        },
{
    match field {
        Some(f) => {
            let t = trim(f.as_str());
            if t.as_str().unicode_len() > 0 {
                Some(t)
            } else {
                None
            }
        },
        None => None,
    }
}

/// Normalizing a field twice is normalizing it once: a normalized field is
/// absent, or non-empty text without whitespace at either end, which
/// normalization keeps as it is.
pub proof fn lemma_normalize_field_idempotent(field: Option<String>, normalized: String)
    requires
        normalized_field(field) == Some(normalized@),
    ensures
        normalized@.len() > 0,
        is_trimmed(normalized@),
        normalized_field(Some(normalized)) == Some(normalized@),
{
    let f = field->Some_0;
    lemma_trimmed_is_trimmed(f@);
    lemma_trim_idempotent(f@);
}

} // verus!
