use vstd::prelude::*;

use crate::interop::{ascii_lower, ascii_upper, is_ascii, now_micros, to_uppercase, uppercased, valid_timestamp_us};
use crate::text::{concat, lemma_ascii_case, str_eq};

verus! {

/// What a promo code grants.
#[derive(Debug, Clone, Copy, PartialEq, Eq, Structural)]
pub enum PromoCodeRewardType {
    /// A one-per-user trial allowance.
    Trial,
    /// An additional traffic allowance; a user may redeem several.
    Add,
}

/// The text of an unknown reward type error.
pub open spec fn unknown_reward_type_message(s: Seq<char>) -> Seq<char> {
    "Unknown reward type: "@ + s
}

/// The reward type whose name is `upper`, if any.
pub open spec fn reward_type_named(upper: Seq<char>) -> Option<PromoCodeRewardType> {
    if upper == "TRIAL"@ {
        Some(PromoCodeRewardType::Trial)
    } else if upper == "ADD"@ {
        Some(PromoCodeRewardType::Add)
    } else {
        None
    }
}

impl PromoCodeRewardType {
    pub open spec fn name(self) -> Seq<char> {
        match self {
            PromoCodeRewardType::Trial => "TRIAL"@,
            PromoCodeRewardType::Add => "ADD"@,
        }
    }

    /// The stored and displayed name of the reward type.
    pub fn as_str(&self) -> (r: &'static str)
        ensures
            r@ == self.name(),
    {
        match self {
            PromoCodeRewardType::Trial => "TRIAL",
            PromoCodeRewardType::Add => "ADD",
        }
    }

    /// The name as an owned string (what `Display` writes).
    pub fn to_string(&self) -> (r: String)
        ensures
            r@ == self.name(),
    {
        self.as_str().to_string()
    }

    /// Parses a reward type from an already uppercased name; `raw` is the
    /// text as the caller gave it, which the error message quotes.
    pub fn from_uppercase(upper: &str, raw: &str) -> (r: Result<PromoCodeRewardType, String>)
        ensures
            match reward_type_named(upper@) {
                Some(t) => r == Ok::<PromoCodeRewardType, String>(t),
                None => r is Err && r->Err_0@ == unknown_reward_type_message(raw@),
            },
    {
        if str_eq(upper, "TRIAL") {
            Ok(PromoCodeRewardType::Trial)
        } else if str_eq(upper, "ADD") {
            Ok(PromoCodeRewardType::Add)
        } else {
            Err(concat("Unknown reward type: ", raw))
        }
    }

    /// Parses a reward type, ignoring case.
    pub fn parse(s: &str) -> (r: Result<PromoCodeRewardType, String>)
        ensures
            match reward_type_named(uppercased(s@)) {
                Some(t) => r == Ok::<PromoCodeRewardType, String>(t),
                None => r is Err && r->Err_0@ == unknown_reward_type_message(s@),
            },
    {
        let upper = to_uppercase(s);
        Self::from_uppercase(upper.as_str(), s)
    }

    /// Parses a stored reward type, falling back to `Trial` for unknown names.
    pub fn parse_or_trial(s: &str) -> (r: PromoCodeRewardType)
        ensures
            r == match reward_type_named(uppercased(s@)) {
                Some(t) => t,
                None => PromoCodeRewardType::Trial,
            },
    {
        match Self::parse(s) {
            Ok(t) => t,
            Err(_) => PromoCodeRewardType::Trial,
        }
    }
}

/// Each reward type's name parses back to it, ignoring case: the name, its
/// lowercase form, and any ASCII spelling of it in mixed case.
pub proof fn lemma_reward_type_name_round_trip(t: PromoCodeRewardType, s: Seq<char>)
    requires
        is_ascii(s),
        ascii_upper(s) == t.name(),
    ensures
        reward_type_named(uppercased(t.name())) == Some(t),
        reward_type_named(uppercased(ascii_lower(t.name()))) == Some(t),
        reward_type_named(uppercased(s)) == Some(t),
{
    reveal_strlit("TRIAL");
    reveal_strlit("ADD");
    let n = t.name();
    assert(is_ascii(n));
    assert(ascii_upper(n) =~= n);
    lemma_ascii_case(n);
}

impl std::str::FromStr for PromoCodeRewardType {
    type Err = String;

    fn from_str(s: &str) -> (r: Result<PromoCodeRewardType, String>)
        ensures
            match reward_type_named(uppercased(s@)) {
                Some(t) => r == Ok::<PromoCodeRewardType, String>(t),
                None => r is Err && r->Err_0@ == unknown_reward_type_message(s@),
            },
    {
        PromoCodeRewardType::parse(s)
    }
}

/// A promo code as stored. Instants are microseconds since the Unix epoch;
/// ids are UUIDs held as their 128-bit value.
#[derive(Debug, Clone)]
pub struct PromoCode {
    pub id: u128,
    pub code: String,
    pub reward_type: PromoCodeRewardType,
    pub reward_bytes: i64,
    pub duration_days: i32,
    pub max_uses: i32,
    pub current_uses: i32,
    pub created_by_user_id: Option<u128>,
    pub expires_at: i64,
    pub created_at: i64,
}

impl PromoCode {
    /// All uses of the code are spent.
    pub open spec fn spec_is_used(&self) -> bool {
        self.current_uses >= self.max_uses
    }

    /// The code has expired at instant `now`.
    pub open spec fn spec_is_expired_at(&self, now: i64) -> bool {
        self.expires_at <= now
    }

    pub fn is_used(&self) -> (r: bool)
        ensures
            r == self.spec_is_used(),
    {
        self.current_uses >= self.max_uses
    }

    pub fn is_expired_at(&self, now: i64) -> (r: bool)
        ensures
            r == self.spec_is_expired_at(now),
    {
        self.expires_at <= now
    }

    /// Whether the code has expired by the current time (read from the
    /// clock, so only some valid instant can be named).
    pub fn is_expired(&self) -> (r: bool)
        ensures
            exists|now: i64| valid_timestamp_us(now as int) && r == self.spec_is_expired_at(now),
    {
        let now = now_micros();
        self.is_expired_at(now)
    }
}

} // verus!
