use vstd::prelude::*;

verus! {

/// Application-level errors, shared by every feature.
#[derive(Debug, Clone, PartialEq, Eq)]
pub enum AppError {
    ValidationError(String),
    NotFound(String),
    InternalError,
    DatabaseError(String),
    WrongCredentials,
    UserAlreadyExists,
    TrafficExhausted,
    NodeRejectedAction,
    PromoCodeInvalidFormat,
    PromoCodeNotFound,
    PromoCodeAlreadyUsed,
    PromoCodeExpired,
    PromoCodeTrialLimitReached,
}

} // verus!
