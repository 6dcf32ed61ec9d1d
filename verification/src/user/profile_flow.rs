//! Reading a user's profile, and updating the caller's own profile.
//!
//! Both talk to the user store and the auth service; `ProfileFlow` decides
//! and the caller performs the requested actions.

use vstd::prelude::*;

use crate::error::AppError;
use super::model::{is_profile_of, UpdateUserProfile, User, UserProfile};
use super::validation::{normalize_optional_field, normalized_field, UpdateMeInput};

verus! {

/// The next thing the caller must do on behalf of a profile read or update.
#[derive(Debug)]
pub enum ProfileAction {
    /// Change the user's password with the auth service.
    ChangePassword { user_id: String, password: String },
    /// Update the stored profile; the store answers the updated user.
    UpdateProfile { user_id: String, update: UpdateUserProfile },
    /// Read the stored user.
    FindById { user_id: String },
    /// Ask the auth service whether the user is a guest.
    IsGuest { user_id: String },
    /// The read or update is over.
    Finish(Result<UserProfile, AppError>),
}

/// The outcome of the last requested action.
#[derive(Debug)]
pub enum ProfileEvent {
    PasswordChanged(Result<(), AppError>),
    UserLoaded(Result<Option<User>, AppError>),
    GuestChecked(Result<bool, AppError>),
}

/// Where a profile read or update stands.
#[derive(Debug)]
pub enum ProfileStage {
    /// Waits for the password change; `username` is the name still to set.
    AwaitPassword { username: Option<String> },
    AwaitUser,
    AwaitGuest(User),
    Finished,
}

#[derive(Debug)]
pub struct ProfileFlow {
    pub user_id: String,
    pub stage: ProfileStage,
}

pub open spec fn profile_at(user: String, stage: ProfileStage, a: ProfileAction) -> (
    ProfileFlow,
    ProfileAction,
) {
    (ProfileFlow { user_id: user, stage }, a)
}

pub open spec fn profile_finished(user: String, r: Result<UserProfile, AppError>) -> (
    ProfileFlow,
    ProfileAction,
) {
    profile_at(user, ProfileStage::Finished, ProfileAction::Finish(r))
}

/// Reading the user: through the update when a name is to be set.
pub open spec fn fetch_user(user: String, username: Option<String>) -> (ProfileFlow, ProfileAction) {
    match username {
        Some(n) => profile_at(
            user,
            ProfileStage::AwaitUser,
            ProfileAction::UpdateProfile {
                user_id: user,
                update: UpdateUserProfile { username: Some(n) },
            },
        ),
        None => profile_at(user, ProfileStage::AwaitUser, ProfileAction::FindById { user_id: user }),
    }
}

/// `r` ends the flow of `user` with a validation or not-found error whose
/// message is `m`.
pub open spec fn ends_with_message(
    r: (ProfileFlow, ProfileAction),
    user: String,
    not_found: bool,
    m: Seq<char>,
) -> bool {
    &&& r.0.user_id == user
    &&& r.0.stage is Finished
    &&& if not_found {
        r.1 matches ProfileAction::Finish(Err(AppError::NotFound(s))) && s@ == m
    } else {
        r.1 matches ProfileAction::Finish(Err(AppError::ValidationError(s))) && s@ == m
    }
}

/// The decision after outcome `e`, as a relation on the answer `r` (the
/// final profile is built, so it is related rather than computed). An
/// outcome that the state does not wait for ends with an internal error.
pub open spec fn profile_step(f: ProfileFlow, e: ProfileEvent, r: (ProfileFlow, ProfileAction)) -> bool {
    let user = f.user_id;
    match f.stage {
        ProfileStage::AwaitPassword { username } => match e {
            ProfileEvent::PasswordChanged(Err(err)) => r == profile_finished(user, Err(err)),
            ProfileEvent::PasswordChanged(Ok(_)) => r == fetch_user(user, username),
            _ => r == profile_finished(user, Err(AppError::InternalError)),
        },
        ProfileStage::AwaitUser => match e {
            ProfileEvent::UserLoaded(Err(err)) => r == profile_finished(user, Err(err)),
            ProfileEvent::UserLoaded(Ok(None)) => ends_with_message(r, user, true, "User not found"@),
            ProfileEvent::UserLoaded(Ok(Some(u))) => r == profile_at(
                user,
                ProfileStage::AwaitGuest(u),
                ProfileAction::IsGuest { user_id: user },
            ),
            _ => r == profile_finished(user, Err(AppError::InternalError)),
        },
        ProfileStage::AwaitGuest(u) => match e {
            ProfileEvent::GuestChecked(Err(err)) => r == profile_finished(user, Err(err)),
            ProfileEvent::GuestChecked(Ok(g)) => {
                &&& r.0 == ProfileFlow { user_id: user, stage: ProfileStage::Finished }
                &&& r.1 matches ProfileAction::Finish(Ok(p)) && is_profile_of(p, u, g)
            },
            _ => r == profile_finished(user, Err(AppError::InternalError)),
        },
        ProfileStage::Finished => r == profile_finished(user, Err(AppError::InternalError)),
    }
}

pub open spec fn missing_fields_error() -> Seq<char> {
    "At least one field (username or password) must be provided"@
}

/// `o` holds a string whose chars are `v`, or both are absent.
pub open spec fn same_text(o: Option<String>, v: Option<Seq<char>>) -> bool {
    match (o, v) {
        (Some(s), Some(t)) => s@ == t,
        (None, None) => true,
        _ => false,
    }
}

impl ProfileFlow {
    /// Begins reading the profile of `user_id` (the user and whether they
    /// are a guest).
    pub fn lookup(user_id: String) -> (r: (ProfileFlow, ProfileAction))
        ensures
            r == fetch_user(user_id, None),
    {
        let a = ProfileAction::FindById { user_id: user_id.clone() };
        (ProfileFlow { user_id, stage: ProfileStage::AwaitUser }, a)
    }

    /// Begins updating the caller's profile. Both fields are trimmed and
    /// dropped when blank; with neither left the update is refused. A new
    /// password is set first, then the name, then the profile is read back.
    pub fn update_me(user_id: String, input: UpdateMeInput) -> (r: (ProfileFlow, ProfileAction))
        ensures
            r.0.user_id == user_id,
            ({
                let u = normalized_field(input.username);
                let p = normalized_field(input.password);
                if u is None && p is None {
                    ends_with_message(r, user_id, false, missing_fields_error())
                } else if p is Some {
                    &&& r.0.stage matches ProfileStage::AwaitPassword { username } && same_text(username, u)
                    &&& r.1 matches ProfileAction::ChangePassword { user_id: id, password } && id
                        == user_id && password@ == p->Some_0
                } else {
                    &&& r.0.stage is AwaitUser
                    &&& r.1 matches ProfileAction::UpdateProfile { user_id: id, update } && id == user_id
                        && same_text(update.username, u)
                }
            }),
    {
        let username = normalize_optional_field(input.username);
        let password = normalize_optional_field(input.password);
        match password {
            Some(pw) => {
                let a = ProfileAction::ChangePassword { user_id: user_id.clone(), password: pw };
                (ProfileFlow { user_id, stage: ProfileStage::AwaitPassword { username } }, a)
            },
            None => match username {
                Some(n) => {
                    let a = ProfileAction::UpdateProfile {
                        user_id: user_id.clone(),
                        update: UpdateUserProfile { username: Some(n) },
                    };
                    (ProfileFlow { user_id, stage: ProfileStage::AwaitUser }, a)
                },
                None => {
                    let e = AppError::ValidationError(
                        "At least one field (username or password) must be provided".to_string(),
                    );
                    (ProfileFlow { user_id, stage: ProfileStage::Finished }, ProfileAction::Finish(Err(e)))
                },
            },
        }
    }

    /// Whether the flow is over.
    pub fn finished(&self) -> (r: bool)
        ensures
            r == (self.stage is Finished),
    {
        match self.stage {
            ProfileStage::Finished => true,
            _ => false,
        }
    }

    /// Takes the outcome of the last requested action.
    pub fn step(self, event: ProfileEvent) -> (r: (ProfileFlow, ProfileAction))
        ensures
            profile_step(self, event, r),
    {
        let user = self.user_id;
        match self.stage {
            ProfileStage::AwaitPassword { username } => match event {
                ProfileEvent::PasswordChanged(Err(err)) => Self::finish(user, Err(err)),
                ProfileEvent::PasswordChanged(Ok(_)) => Self::fetch(user, username),
                _ => Self::finish(user, Err(AppError::InternalError)),
            },
            ProfileStage::AwaitUser => match event {
                ProfileEvent::UserLoaded(Err(err)) => Self::finish(user, Err(err)),
                ProfileEvent::UserLoaded(Ok(None)) => {
                    let e = AppError::NotFound("User not found".to_string());
                    Self::finish(user, Err(e))
                },
                ProfileEvent::UserLoaded(Ok(Some(u))) => {
                    let a = ProfileAction::IsGuest { user_id: user.clone() };
                    (ProfileFlow { user_id: user, stage: ProfileStage::AwaitGuest(u) }, a)
                },
                _ => Self::finish(user, Err(AppError::InternalError)),
            },
            ProfileStage::AwaitGuest(u) => match event {
                ProfileEvent::GuestChecked(Err(err)) => Self::finish(user, Err(err)),
                ProfileEvent::GuestChecked(Ok(g)) => {
                    let p = UserProfile::new(u, g);
                    Self::finish(user, Ok(p))
                },
                _ => Self::finish(user, Err(AppError::InternalError)),
            },
            ProfileStage::Finished => Self::finish(user, Err(AppError::InternalError)),
        }
    }

    fn finish(user: String, r: Result<UserProfile, AppError>) -> (res: (ProfileFlow, ProfileAction))
        ensures
            res == profile_finished(user, r),
    {
        (ProfileFlow { user_id: user, stage: ProfileStage::Finished }, ProfileAction::Finish(r))
    }

    fn fetch(user: String, username: Option<String>) -> (res: (ProfileFlow, ProfileAction))
        ensures
            res == fetch_user(user, username),
    {
        match username {
            Some(n) => {
                let a = ProfileAction::UpdateProfile {
                    user_id: user.clone(),
                    update: UpdateUserProfile { username: Some(n) },
                };
                (ProfileFlow { user_id: user, stage: ProfileStage::AwaitUser }, a)
            },
            None => {
                let a = ProfileAction::FindById { user_id: user.clone() };
                (ProfileFlow { user_id: user, stage: ProfileStage::AwaitUser }, a)
            },
        }
    }
}

/// Reading or updating a profile, step by step: after the password change
/// the new name is stored (the store answers the updated user), or without a
/// new name the user is read; a missing user is `NotFound("User not found")`;
/// a found user is checked for being a guest, and the answer is that user's
/// profile with the guest flag, the name falling back to `player-<id>`.
/// Every failed call ends with its error.
pub proof fn lemma_profile_decides(user: String, e: ProfileEvent, username: Option<String>, u: User, r: (ProfileFlow, ProfileAction), r2: (ProfileFlow, ProfileAction), r3: (ProfileFlow, ProfileAction))
    requires
        profile_step(ProfileFlow { user_id: user, stage: ProfileStage::AwaitPassword { username } }, e, r),
        profile_step(ProfileFlow { user_id: user, stage: ProfileStage::AwaitUser }, e, r2),
        profile_step(ProfileFlow { user_id: user, stage: ProfileStage::AwaitGuest(u) }, e, r3),
    ensures
        e matches ProfileEvent::PasswordChanged(Err(err)) ==> r.1 == ProfileAction::Finish(Err(err)),
        e matches ProfileEvent::PasswordChanged(Ok(_)) ==> r.1 == match username {
            Some(n) => ProfileAction::UpdateProfile {
                user_id: user,
                update: UpdateUserProfile { username: Some(n) },
            },
            None => ProfileAction::FindById { user_id: user },
        },
        e matches ProfileEvent::UserLoaded(Err(err)) ==> r2.1 == ProfileAction::Finish(Err(err)),
        e == ProfileEvent::UserLoaded(Ok(None)) ==> (r2.1 matches ProfileAction::Finish(Err(AppError::NotFound(m)))
            && m@ == "User not found"@),
        e matches ProfileEvent::UserLoaded(Ok(Some(found))) ==> r2.0.stage == ProfileStage::AwaitGuest(found)
            && r2.1 == (ProfileAction::IsGuest { user_id: user }),
        e matches ProfileEvent::GuestChecked(Err(err)) ==> r3.1 == ProfileAction::Finish(Err(err)),
        e matches ProfileEvent::GuestChecked(Ok(g)) ==> r3.1 matches ProfileAction::Finish(Ok(p)) && p.id == u.id
            && p.username@ == (match u.username {
            Some(n) => n@,
            None => "player-"@ + u.id@,
        }) && p.created_at == u.created_at && p.modified_at == u.modified_at && p.is_guest == g,
{
}

} // verus!
