use vstd::prelude::*;

use crate::error::AppError;
use crate::text::{concat, str_eq, trim, trimmed};
use crate::traffic::model::TrafficSummary;

verus! {

/// A user as stored. Instants are microseconds since the Unix epoch.
#[derive(Debug, Clone)]
pub struct User {
    pub id: String,
    pub username: Option<String>,
    pub created_at: Option<i64>,
    pub modified_at: Option<i64>,
}

/// Search criteria; blank criteria are ignored.
#[derive(Debug, Clone)]
pub struct SearchUser {
    pub id: Option<String>,
    pub username: Option<String>,
}

/// A change of profile; `None` keeps the stored value.
#[derive(Debug, Clone)]
pub struct UpdateUserProfile {
    pub username: Option<String>,
}

/// The search body of the API.
#[derive(Debug, Clone)]
pub struct SearchUserDto {
    pub id: Option<String>,
    pub username: Option<String>,
}

impl SearchUserDto {
    pub fn into_search(self) -> (r: SearchUser)
        ensures
            r.id == self.id,
            r.username == self.username,
    {
        SearchUser { id: self.id, username: self.username }
    }
}

/// The criterion is given and not blank.
pub open spec fn is_set(v: Option<String>) -> bool {
    v matches Some(s) && trimmed(s@).len() > 0
}

/// The filters that a search applies to the user table.
#[derive(Debug)]
pub struct SearchFilters {
    /// Exact id to match.
    pub id: Option<String>,
    /// `LIKE` pattern for the username.
    pub username_pattern: Option<String>,
}

impl SearchUser {
    /// The filters: the id as given, and `%name%` for the username; blank
    /// criteria give no filter.
    pub fn filters(&self) -> (r: SearchFilters)
        ensures
            is_set(self.id) ==> (r.id matches Some(v) && v@ == self.id->Some_0@),
            !is_set(self.id) ==> r.id is None,
            is_set(self.username) ==> (r.username_pattern matches Some(v) && v@ == "%"@
                + self.username->Some_0@ + "%"@),
            !is_set(self.username) ==> r.username_pattern is None,
    {
        let id = match &self.id {
            Some(v) => {
                let t = trim(v.as_str());
                if t.as_str().unicode_len() > 0 {
                    Some(v.as_str().to_string())
                } else {
                    None
                }
            },
            None => None,
        };
        let username_pattern = match &self.username {
            Some(v) => {
                let t = trim(v.as_str());
                if t.as_str().unicode_len() > 0 {
                    let p = concat("%", v.as_str());
                    Some(concat(p.as_str(), "%"))
                } else {
                    None
                }
            },
            None => None,
        };
        SearchFilters { id, username_pattern }
    }
}

/// The unique constraint on usernames.
pub open spec fn username_constraint() -> Seq<char> {
    "users_username_key"@
}

/// The error for a failed write to the user table: a violated username
/// constraint means the name is taken; anything else is a database error
/// with the driver's message.
pub fn user_write_error(constraint: Option<&str>, message: String) -> (r: AppError)
    ensures
        (constraint matches Some(c) && c@ == username_constraint()) ==> r == AppError::UserAlreadyExists,
        !(constraint matches Some(c) && c@ == username_constraint()) ==> r == AppError::DatabaseError(
            message,
        ),
{
    match constraint {
        Some(c) => {
            if str_eq(c, "users_username_key") {
                AppError::UserAlreadyExists
            } else {
                AppError::DatabaseError(message)
            }
        },
        None => AppError::DatabaseError(message),
    }
}

/// A user's profile as the application shows it.
#[derive(Debug, Clone)]
pub struct UserProfile {
    pub id: String,
    pub username: String,
    pub created_at: Option<i64>,
    pub modified_at: Option<i64>,
    pub is_guest: bool,
}

/// The name shown for a user: the stored one, else `player-<id>`.
pub open spec fn display_name(u: User) -> Seq<char> {
    match u.username {
        Some(n) => n@,
        None => "player-"@ + u.id@,
    }
}

/// `p` is the profile of `u` with guest flag `is_guest`.
pub open spec fn is_profile_of(p: UserProfile, u: User, is_guest: bool) -> bool {
    &&& p.id == u.id
    &&& p.username@ == display_name(u)
    &&& p.created_at == u.created_at
    &&& p.modified_at == u.modified_at
    &&& p.is_guest == is_guest
}

impl UserProfile {
    pub fn new(user: User, is_guest: bool) -> (r: UserProfile)
        ensures
            is_profile_of(r, user, is_guest),
    {
        let username = match user.username {
            Some(n) => n,
            None => concat("player-", user.id.as_str()),
        };
        UserProfile {
            id: user.id,
            username,
            created_at: user.created_at,
            modified_at: user.modified_at,
            is_guest,
        }
    }

    /// The profile when the guest lookup may have failed: a failed lookup
    /// counts the user as a guest.
    pub fn with_guest_lookup(user: User, guest: Result<bool, AppError>) -> (r: UserProfile)
        ensures
            is_profile_of(
                r,
                user,
                match guest {
                    Ok(g) => g,
                    Err(_) => true,
                },
            ),
    {
        let is_guest = match guest {
            Ok(g) => g,
            Err(_) => true,
        };
        Self::new(user, is_guest)
    }
}

/// Whether a user counts as a guest, given the guest lookup's outcome: a
/// failed lookup counts as a guest.
pub open spec fn guest_or_default(guest: Result<bool, AppError>) -> bool {
    match guest {
        Ok(g) => g,
        Err(_) => true,
    }
}

/// The profiles of `users`, in order, `guests[i]` being the guest lookup's
/// outcome for `users[i]`.
pub fn profiles_with_guest_lookups(users: Vec<User>, guests: Vec<Result<bool, AppError>>) -> (r: Vec<UserProfile>)
    requires
        users.len() == guests.len(),
    ensures
        r.len() == users.len(),
        forall|i: int|
            0 <= i < users.len() ==> is_profile_of(#[trigger] r@[i], users@[i], guest_or_default(guests@[i])),
{
    let mut out: Vec<UserProfile> = Vec::new();
    let n = users.len();
    let mut rest = users;
    let mut i: usize = 0;
    while i < n
        invariant
            n == users.len(),
            n == guests.len(),
            i <= n,
            out.len() == i,
            rest@ == users@.subrange(i as int, n as int),
            forall|j: int|
                0 <= j < i ==> is_profile_of(#[trigger] out@[j], users@[j], guest_or_default(guests@[j])),
        decreases n - i,
    {
        let g = match &guests[i] {
            Ok(g) => Ok(*g),
            Err(_) => Err(AppError::InternalError),
        };
        let u = rest.remove(0);
        assert(u == users@[i as int]);
        out.push(UserProfile::with_guest_lookup(u, g));
        i = i + 1;
        assert(rest@ =~= users@.subrange(i as int, n as int));
    }
    out
}

/// A user as the API shows it, with the user's traffic.
#[derive(Debug, Clone)]
pub struct UserDto {
    pub id: String,
    pub username: String,
    pub traffic_total_bytes: i64,
    pub traffic_remaining_bytes: i64,
    pub created_at: Option<i64>,
    pub modified_at: Option<i64>,
}

impl UserDto {
    pub fn from_profile(p: UserProfile, traffic: TrafficSummary) -> (r: UserDto)
        ensures
            r.id == p.id,
            r.username == p.username,
            r.traffic_total_bytes == traffic.total_bytes,
            r.traffic_remaining_bytes == traffic.remaining_bytes,
            r.created_at == p.created_at,
            r.modified_at == p.modified_at,
    {
        UserDto {
            id: p.id,
            username: p.username,
            traffic_total_bytes: traffic.total_bytes,
            traffic_remaining_bytes: traffic.remaining_bytes,
            created_at: p.created_at,
            modified_at: p.modified_at,
        }
    }
}

} // verus!
