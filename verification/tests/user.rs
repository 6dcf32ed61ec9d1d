use vpn_hub::error::AppError;
use vpn_hub::traffic::model::TrafficSummary;
use vpn_hub::user::model::{profiles_with_guest_lookups, user_write_error, SearchUser, SearchUserDto, User, UserDto, UserProfile};
use vpn_hub::user::profile_flow::{ProfileAction, ProfileEvent, ProfileFlow};
use vpn_hub::user::validation::{normalize_optional_field, validate_update_me, UpdateMeDto, UpdateMeInput};

fn user(id: &str, name: Option<&str>) -> User {
    User { id: id.to_string(), username: name.map(|s| s.to_string()), created_at: Some(1), modified_at: None }
}

#[test]
fn profile_name_falls_back_to_player_id() {
    let p = UserProfile::new(user("abc", None), true);
    assert_eq!(p.username, "player-abc");
    assert!(p.is_guest);
    let p = UserProfile::new(user("abc", Some("neo")), false);
    assert_eq!(p.username, "neo");
    assert_eq!(p.created_at, Some(1));
    let p = UserProfile::with_guest_lookup(user("x", None), Err(AppError::InternalError));
    assert!(p.is_guest);
    let p = UserProfile::with_guest_lookup(user("x", None), Ok(false));
    assert!(!p.is_guest);
}

#[test]
fn update_me_validation() {
    let ok = UpdateMeDto { username: Some("neo".to_string()), password: None };
    assert!(validate_update_me(&ok).is_ok());
    let none = UpdateMeDto { username: None, password: None };
    assert!(validate_update_me(&none).is_ok());
    let long = UpdateMeDto { username: Some("x".repeat(65)), password: None };
    assert_eq!(
        validate_update_me(&long),
        Err(AppError::ValidationError("Invalid input: username: Username must be between 1 and 64 characters".to_string()))
    );
    let wide = UpdateMeDto { username: Some("é".repeat(64)), password: Some("p".repeat(128)) };
    assert!(validate_update_me(&wide).is_ok());
    let empty_pw = UpdateMeDto { username: None, password: Some(String::new()) };
    assert_eq!(
        validate_update_me(&empty_pw),
        Err(AppError::ValidationError("Invalid input: password: Password cannot be empty".to_string()))
    );
    let both = UpdateMeDto { username: Some(String::new()), password: Some("p".repeat(129)) };
    assert_eq!(
        validate_update_me(&both),
        Err(AppError::ValidationError(
            "Invalid input: username: Username must be between 1 and 64 characters\npassword: Password cannot be empty".to_string()
        ))
    );
}

#[test]
fn optional_fields_are_trimmed() {
    assert_eq!(normalize_optional_field(Some("  a b ".to_string())), Some("a b".to_string()));
    assert_eq!(normalize_optional_field(Some(" \t ".to_string())), None);
    assert_eq!(normalize_optional_field(None), None);
    // Law: normalizing twice is normalizing once.
    let once = normalize_optional_field(Some("  bob ".to_string()));
    assert_eq!(once, Some("bob".to_string()));
    assert_eq!(normalize_optional_field(once.clone()), once);
}

struct MemoryUsers {
    users: Vec<User>,
    passwords: Vec<(String, String)>,
    guest: bool,
}

impl MemoryUsers {
    fn run(&mut self, (mut flow, mut action): (ProfileFlow, ProfileAction)) -> Result<UserProfile, AppError> {
        loop {
            let event = match action {
                ProfileAction::Finish(r) => return r,
                ProfileAction::ChangePassword { user_id, password } => {
                    self.passwords.push((user_id, password));
                    ProfileEvent::PasswordChanged(Ok(()))
                }
                ProfileAction::UpdateProfile { user_id, update } => {
                    let found = self.users.iter_mut().find(|u| u.id == user_id).map(|u| {
                        if let Some(n) = update.username.clone() {
                            u.username = Some(n);
                        }
                        u.clone()
                    });
                    ProfileEvent::UserLoaded(Ok(found))
                }
                ProfileAction::FindById { user_id } => {
                    ProfileEvent::UserLoaded(Ok(self.users.iter().find(|u| u.id == user_id).cloned()))
                }
                ProfileAction::IsGuest { .. } => ProfileEvent::GuestChecked(Ok(self.guest)),
            };
            let (f, a) = flow.step(event);
            flow = f;
            action = a;
        }
    }
}

#[test]
fn update_me_sets_password_then_name() {
    let mut store = MemoryUsers { users: vec![user("u1", None)], passwords: vec![], guest: false };
    let input = UpdateMeInput { username: Some(" morpheus ".to_string()), password: Some(" secret ".to_string()) };
    let p = store.run(ProfileFlow::update_me("u1".to_string(), input)).unwrap();
    assert_eq!(p.username, "morpheus");
    assert_eq!(store.passwords, vec![("u1".to_string(), "secret".to_string())]);
    assert!(!p.is_guest);
}

#[test]
fn update_me_needs_a_field() {
    let mut store = MemoryUsers { users: vec![user("u1", None)], passwords: vec![], guest: true };
    let input = UpdateMeInput { username: Some("   ".to_string()), password: None };
    let r = store.run(ProfileFlow::update_me("u1".to_string(), input));
    assert_eq!(
        r.unwrap_err(),
        AppError::ValidationError("At least one field (username or password) must be provided".to_string())
    );
    let input = UpdateMeInput { username: None, password: Some("pw".to_string()) };
    let p = store.run(ProfileFlow::update_me("u1".to_string(), input)).unwrap();
    assert_eq!(p.username, "player-u1");
    assert!(p.is_guest);
}

#[test]
fn lookup_of_missing_user() {
    let mut store = MemoryUsers { users: vec![], passwords: vec![], guest: false };
    let r = store.run(ProfileFlow::lookup("ghost".to_string()));
    assert_eq!(r.unwrap_err(), AppError::NotFound("User not found".to_string()));
    let mut store = MemoryUsers { users: vec![user("a", Some("alice"))], passwords: vec![], guest: false };
    let p = store.run(ProfileFlow::lookup("a".to_string())).unwrap();
    assert_eq!(p.username, "alice");
}

#[test]
fn search_filters_skip_blank_criteria() {
    let f = SearchUser { id: Some(" 42 ".to_string()), username: Some("neo".to_string()) }.filters();
    assert_eq!(f.id, Some(" 42 ".to_string()));
    assert_eq!(f.username_pattern, Some("%neo%".to_string()));
    let f = SearchUser { id: Some("  ".to_string()), username: None }.filters();
    assert_eq!(f.id, None);
    assert_eq!(f.username_pattern, None);
    let s = SearchUserDto { id: None, username: Some("x".to_string()) }.into_search();
    assert_eq!(s.username, Some("x".to_string()));
}

#[test]
fn write_errors_are_classified() {
    assert_eq!(user_write_error(Some("users_username_key"), "dup".to_string()), AppError::UserAlreadyExists);
    assert_eq!(user_write_error(Some("other"), "boom".to_string()), AppError::DatabaseError("boom".to_string()));
    assert_eq!(user_write_error(None, "io".to_string()), AppError::DatabaseError("io".to_string()));
}

#[test]
fn user_dto_carries_traffic() {
    let p = UserProfile::new(user("id1", Some("n")), false);
    let d = UserDto::from_profile(p, TrafficSummary { total_bytes: 10, remaining_bytes: 3, updated_at_ms: 0 });
    assert_eq!(d.id, "id1");
    assert_eq!(d.traffic_total_bytes, 10);
    assert_eq!(d.traffic_remaining_bytes, 3);
}

#[test]
fn update_me_input_from_dto() {
    let i = UpdateMeInput::from_dto(UpdateMeDto { username: Some("a".to_string()), password: None });
    assert_eq!(i.username, Some("a".to_string()));
    assert_eq!(i.password, None);
}

#[test]
fn profile_list_keeps_order_and_guest_lookups() {
    let users = vec![user("a", Some("ann")), user("b", None), user("c", None)];
    let guests = vec![Ok(false), Err(AppError::InternalError), Ok(true)];
    let ps = profiles_with_guest_lookups(users, guests);
    assert_eq!(ps.len(), 3);
    assert_eq!((ps[0].id.as_str(), ps[0].username.as_str(), ps[0].is_guest), ("a", "ann", false));
    assert_eq!((ps[1].id.as_str(), ps[1].username.as_str(), ps[1].is_guest), ("b", "player-b", true));
    assert_eq!((ps[2].id.as_str(), ps[2].is_guest), ("c", true));
}
