use auth_service::api_endpoints::account::edit::{self, EditData, EditState};
use auth_service::api_endpoints::login::{self, LoginData, LoginState};
use auth_service::api_endpoints::logout::{self, LogoutState};
use auth_service::api_endpoints::refresh::{self, RefreshState};
use auth_service::api_endpoints::signup::{self, SignupState};
use auth_service::api_endpoints::user::stats::{self, StatsState};
use auth_service::exchange::{
    Action, Awaiting, Body, Event, SaltName, Status, TokenRecord, UserId, UserRecord,
};
use auth_service::hash::salted_hash_text;

fn uid(n: u8) -> UserId {
    UserId { bytes: [n; 12] }
}

fn reply_of(action: &Action) -> (Status, String) {
    match action {
        Action::Respond(r) => {
            let body = match &r.body {
                Body::Empty => String::new(),
                Body::Text(t) => t.clone(),
                Body::Stats(s) => format!("stats:{}", s.username),
            };
            (r.status, body)
        }
        _ => panic!("expected a reply"),
    }
}

fn is_uuid_v4(s: &str) -> bool {
    let b: Vec<char> = s.chars().collect();
    b.len() == 36
        && b.iter().enumerate().all(|(i, c)| {
            if i == 8 || i == 13 || i == 18 || i == 23 {
                *c == '-'
            } else {
                c.is_ascii_digit() || ('a'..='f').contains(c)
            }
        })
        && b[14] == '4'
        && "89ab".contains(b[19])
}

fn found_token(valid_until: Option<i64>, user: Option<UserId>) -> Event {
    Event::Token(Some(TokenRecord { user_id: user, valid_until }))
}

// ---------------------------------------------------------------- login

#[test]
fn login_without_body_is_bad_request() {
    let (s, a) = login::start(None);
    assert!(matches!(s, LoginState::Done));
    assert_eq!(reply_of(&a), (Status::BadRequest, String::new()));
    assert_eq!(s.awaiting(), Awaiting::Nothing);
}

#[test]
fn login_success_issues_a_fresh_token() {
    let data = LoginData { username: "alice".to_string(), password: "pw".to_string() };
    let (s, a) = login::start(Some(data));
    assert!(matches!(a, Action::ReadSalt(SaltName::User)));
    assert_eq!(s.awaiting(), Awaiting::Salt);
    let (s, a) = login::step(s, Event::Salt("s".to_string()));
    match &a {
        Action::FindUserByLogin { username, password } => {
            assert_eq!(username, "alice");
            assert_eq!(password, "iGwgmC3Zc9QC1X/oK6BIktEGIxpsLnT4k0k+2/gkQHM=");
        }
        _ => panic!("expected a user lookup"),
    }
    let rec = UserRecord { id: Some(uid(7)), username: Some("alice".to_string()) };
    let (s, a) = login::step(s, Event::User(Some(rec)));
    match &a {
        Action::FindTokenByUser { user_id } => assert_eq!(user_id.bytes, [7; 12]),
        _ => panic!("expected a token lookup"),
    }
    let (s, a) = login::step(s, Event::Token(None));
    assert!(matches!(a, Action::ReadSalt(SaltName::Token)));
    let token = match &s {
        LoginState::AwaitTokenSalt { token, .. } => token.clone(),
        _ => panic!("expected a fresh token"),
    };
    assert!(is_uuid_v4(&token));
    let (s, a) = login::step(s, Event::Salt("ts".to_string()));
    match &a {
        Action::InsertToken { user_id, value, valid_until } => {
            assert_eq!(user_id.bytes, [7; 12]);
            assert_eq!(*value, salted_hash_text(&token, "ts"));
            assert_eq!(*valid_until, None);
        }
        _ => panic!("expected a token insertion"),
    }
    let (s, a) = login::step(s, Event::Written);
    assert!(matches!(s, LoginState::Done));
    assert_eq!(reply_of(&a), (Status::Success, token));
}

#[test]
fn login_fresh_tokens_differ() {
    let mut tokens = Vec::new();
    for _ in 0..2 {
        let (s, _) = login::start(Some(LoginData { username: "a".into(), password: "b".into() }));
        let (s, _) = login::step(s, Event::Salt("s".into()));
        let (s, _) = login::step(s, Event::User(Some(UserRecord { id: Some(uid(1)), username: None })));
        let (s, _) = login::step(s, Event::Token(None));
        if let LoginState::AwaitTokenSalt { token, .. } = s {
            tokens.push(token);
        }
    }
    assert_eq!(tokens.len(), 2);
    assert_ne!(tokens[0], tokens[1]);
}

#[test]
fn login_with_wrong_credentials_is_unauthorized() {
    let (s, _) = login::start(Some(LoginData { username: "a".into(), password: "b".into() }));
    let (s, _) = login::step(s, Event::Salt("s".into()));
    let (s, a) = login::step(s, Event::User(None));
    assert!(matches!(s, LoginState::Done));
    assert_eq!(reply_of(&a), (Status::Unauthorized, "Invalid credentials".to_string()));
}

#[test]
fn login_with_open_session_is_too_many_requests() {
    let (s, _) = login::start(Some(LoginData { username: "a".into(), password: "b".into() }));
    let (s, _) = login::step(s, Event::Salt("s".into()));
    let (s, _) = login::step(s, Event::User(Some(UserRecord { id: Some(uid(1)), username: None })));
    let (s, a) = login::step(s, found_token(None, Some(uid(1))));
    assert!(matches!(s, LoginState::Done));
    assert_eq!(reply_of(&a), (Status::TooManyRequests, String::new()));
    assert_eq!(Status::TooManyRequests.code(), 429);
}

#[test]
fn login_user_without_id_is_abandoned() {
    let (s, _) = login::start(Some(LoginData { username: "a".into(), password: "b".into() }));
    let (s, _) = login::step(s, Event::Salt("s".into()));
    let (s, a) = login::step(s, Event::User(Some(UserRecord { id: None, username: None })));
    assert!(matches!(s, LoginState::Done));
    assert!(matches!(a, Action::Abort));
}

// ---------------------------------------------------------------- logout

#[test]
fn logout_without_header_is_bad_request() {
    let (s, a) = logout::start(None);
    assert!(matches!(s, LogoutState::Done));
    assert_eq!(reply_of(&a), (Status::BadRequest, String::new()));
}

#[test]
fn logout_removes_the_presented_token() {
    let (s, a) = logout::start(Some("tok".into()));
    assert!(matches!(a, Action::ReadSalt(SaltName::Token)));
    let (s, a) = logout::step(s, Event::Salt("ts".into()));
    match &a {
        Action::FindTokenByValue { value } => assert_eq!(value, "oBZQ4+xHiTucHMBZ590xXh4QZqye0k5hR3/1G/JbWOA="),
        _ => panic!("expected a token lookup"),
    }
    let (s, a) = logout::step(s, found_token(None, None));
    match &a {
        Action::DeleteToken { value } => assert_eq!(value, "oBZQ4+xHiTucHMBZ590xXh4QZqye0k5hR3/1G/JbWOA="),
        _ => panic!("expected a deletion"),
    }
    let (s, a) = logout::step(s, Event::Written);
    assert!(matches!(s, LogoutState::Done));
    assert_eq!(reply_of(&a), (Status::Success, "logged out".to_string()));
}

#[test]
fn logout_with_unknown_token_is_unauthorized() {
    let (s, _) = logout::start(Some("tok".into()));
    let (s, _) = logout::step(s, Event::Salt("ts".into()));
    let (s, a) = logout::step(s, Event::Token(None));
    assert!(matches!(s, LogoutState::Done));
    assert_eq!(reply_of(&a), (Status::Unauthorized, String::new()));
}

// ---------------------------------------------------------------- refresh

#[test]
fn refresh_renews_a_valid_token() {
    let (s, _) = refresh::start(Some("tok".into()));
    let (s, _) = refresh::step(s, Event::Salt("ts".into()));
    let (s, a) = refresh::step(s, found_token(Some(i64::MAX), Some(uid(2))));
    assert!(matches!(a, Action::ReadSalt(SaltName::Token)));
    let new_token = match &s {
        RefreshState::AwaitNewSalt { new_token, value, .. } => {
            assert_eq!(value, "oBZQ4+xHiTucHMBZ590xXh4QZqye0k5hR3/1G/JbWOA=");
            new_token.clone()
        }
        _ => panic!("expected a fresh token"),
    };
    assert!(is_uuid_v4(&new_token));
    let before = std::time::SystemTime::now()
        .duration_since(std::time::UNIX_EPOCH)
        .unwrap()
        .as_millis() as i64;
    let (s, a) = refresh::step(s, Event::Salt("ts".into()));
    match &a {
        Action::UpdateToken { value, new_value, valid_until } => {
            assert_eq!(value, "oBZQ4+xHiTucHMBZ590xXh4QZqye0k5hR3/1G/JbWOA=");
            assert_eq!(*new_value, salted_hash_text(&new_token, "ts"));
            assert!(*valid_until >= before + 300000);
            assert!(*valid_until <= before + 300000 + 60000);
        }
        _ => panic!("expected a token update"),
    }
    let (s, a) = refresh::step(s, Event::Written);
    assert!(matches!(s, RefreshState::Done));
    assert_eq!(reply_of(&a), (Status::Success, new_token));
}

#[test]
fn refresh_removes_an_expired_token() {
    let (s, _) = refresh::start(Some("tok".into()));
    let (s, _) = refresh::step(s, Event::Salt("ts".into()));
    let (s, a) = refresh::step(s, found_token(Some(0), Some(uid(2))));
    match &a {
        Action::DeleteToken { value } => assert_eq!(value, "oBZQ4+xHiTucHMBZ590xXh4QZqye0k5hR3/1G/JbWOA="),
        _ => panic!("expected a deletion"),
    }
    assert!(matches!(s, RefreshState::AwaitDelete));
    let (s, a) = refresh::step(s, Event::Written);
    assert!(matches!(s, RefreshState::Done));
    assert_eq!(reply_of(&a), (Status::Unauthorized, String::new()));
}

#[test]
fn refresh_of_token_without_expiry_is_abandoned() {
    let (s, _) = refresh::start(Some("tok".into()));
    let (s, _) = refresh::step(s, Event::Salt("ts".into()));
    let (s, a) = refresh::step(s, found_token(None, Some(uid(2))));
    assert!(matches!(s, RefreshState::Done));
    assert!(matches!(a, Action::Abort));
}

#[test]
fn refresh_edge_cases() {
    let (_, a) = refresh::start(None);
    assert_eq!(reply_of(&a), (Status::BadRequest, String::new()));
    let (s, _) = refresh::start(Some("tok".into()));
    let (s, _) = refresh::step(s, Event::Salt("ts".into()));
    let (_, a) = refresh::step(s, Event::Token(None));
    assert_eq!(reply_of(&a), (Status::Unauthorized, String::new()));
}

// ---------------------------------------------------------------- signup

#[test]
fn signup_creates_user_and_session() {
    let (s, a) = signup::start(Some(b"YWxpY2U6cHc=".to_vec()));
    match &a {
        Action::FindUserByName { username } => assert_eq!(username, "alice"),
        _ => panic!("expected a user lookup"),
    }
    let (s, a) = signup::step(s, Event::User(None));
    assert!(matches!(a, Action::ReadSalt(SaltName::User)));
    let (s, a) = signup::step(s, Event::Salt("s".into()));
    match &a {
        Action::InsertUser { username, password } => {
            assert_eq!(username, "alice");
            assert_eq!(password, "iGwgmC3Zc9QC1X/oK6BIktEGIxpsLnT4k0k+2/gkQHM=");
        }
        _ => panic!("expected a user insertion"),
    }
    let (s, a) = signup::step(s, Event::Written);
    match &a {
        Action::FindUserByName { username } => assert_eq!(username, "alice"),
        _ => panic!("expected a user lookup"),
    }
    let (s, a) = signup::step(s, Event::User(Some(UserRecord { id: Some(uid(3)), username: None })));
    assert!(matches!(a, Action::ReadSalt(SaltName::Token)));
    let token = match &s {
        SignupState::AwaitTokenSalt { token, .. } => token.clone(),
        _ => panic!("expected a fresh token"),
    };
    assert!(is_uuid_v4(&token));
    let (s, a) = signup::step(s, Event::Salt("ts".into()));
    match &a {
        Action::InsertToken { user_id, value, valid_until } => {
            assert_eq!(user_id.bytes, [3; 12]);
            assert_eq!(*value, salted_hash_text(&token, "ts"));
            assert!(valid_until.unwrap() > 300000);
        }
        _ => panic!("expected a token insertion"),
    }
    let (s, a) = signup::step(s, Event::Written);
    assert!(matches!(s, SignupState::Done));
    assert_eq!(reply_of(&a), (Status::Success, token));
}

#[test]
fn signup_splits_at_the_first_colon() {
    let (s, a) = signup::start(Some(b"YTpiOmM=".to_vec()));
    match &s {
        SignupState::AwaitExisting { username, password } => {
            assert_eq!(username, "a");
            assert_eq!(password, "b:c");
        }
        _ => panic!("expected a lookup of the name"),
    }
    assert!(matches!(a, Action::FindUserByName { .. }));
}

#[test]
fn signup_rejects_malformed_credentials() {
    let (_, a) = signup::start(None);
    assert_eq!(reply_of(&a), (Status::BadRequest, String::new()));
    let (_, a) = signup::start(Some(b"not base64!".to_vec()));
    assert_eq!(reply_of(&a), (Status::BadRequest, String::new()));
    let (_, a) = signup::start(Some(b"bm9jb2xvbg==".to_vec()));
    assert_eq!(reply_of(&a), (Status::BadRequest, String::new()));
}

#[test]
fn signup_with_non_utf8_credentials_is_abandoned() {
    let (s, a) = signup::start(Some(b"//46eA==".to_vec()));
    assert!(matches!(s, SignupState::Done));
    assert!(matches!(a, Action::Abort));
}

#[test]
fn signup_of_existing_user_is_forbidden() {
    let (s, _) = signup::start(Some(b"YWxpY2U6cHc=".to_vec()));
    let (s, a) = signup::step(s, Event::User(Some(UserRecord { id: Some(uid(1)), username: None })));
    assert!(matches!(s, SignupState::Done));
    assert_eq!(reply_of(&a), (Status::Forbidden, "User already exists".to_string()));
    assert_eq!(Status::Forbidden.code(), 403);
}

// ---------------------------------------------------------------- stats

#[test]
fn stats_reports_the_user_name() {
    let (s, _) = stats::start(Some("tok".into()));
    let (s, _) = stats::step(s, Event::Salt("ts".into()));
    let (s, a) = stats::step(s, found_token(Some(i64::MAX), Some(uid(4))));
    match &a {
        Action::FindUserById { id } => assert_eq!(id.bytes, [4; 12]),
        _ => panic!("expected a user lookup"),
    }
    let (s, a) = stats::step(s, Event::User(Some(UserRecord { id: Some(uid(4)), username: Some("bob".into()) })));
    assert!(matches!(s, StatsState::Done));
    assert_eq!(reply_of(&a), (Status::Success, "stats:bob".to_string()));
}

#[test]
fn stats_with_expired_or_unknown_token() {
    let (s, _) = stats::start(Some("tok".into()));
    let (s, _) = stats::step(s, Event::Salt("ts".into()));
    let (s, a) = stats::step(s, found_token(Some(-5), Some(uid(4))));
    assert!(matches!(a, Action::DeleteToken { .. }));
    let (_, a) = stats::step(s, Event::Written);
    assert_eq!(reply_of(&a), (Status::Unauthorized, String::new()));

    let (s, _) = stats::start(Some("tok".into()));
    let (s, _) = stats::step(s, Event::Salt("ts".into()));
    let (_, a) = stats::step(s, Event::Token(None));
    assert_eq!(reply_of(&a), (Status::Unauthorized, String::new()));

    let (_, a) = stats::start(None);
    assert_eq!(reply_of(&a), (Status::BadRequest, String::new()));
}

#[test]
fn stats_abandons_missing_records() {
    let (s, _) = stats::start(Some("tok".into()));
    let (s, _) = stats::step(s, Event::Salt("ts".into()));
    let (s, a) = stats::step(s, found_token(Some(i64::MAX), None));
    assert!(matches!(a, Action::Abort));
    assert!(matches!(s, StatsState::Done));

    let (s, _) = stats::start(Some("tok".into()));
    let (s, _) = stats::step(s, Event::Salt("ts".into()));
    let (s, _) = stats::step(s, found_token(Some(i64::MAX), Some(uid(4))));
    let (_, a) = stats::step(s, Event::User(None));
    assert!(matches!(a, Action::Abort));
}

// ---------------------------------------------------------------- edit

fn edit_until_token(body: Option<EditData>, valid_until: Option<i64>, user: Option<UserId>) -> (EditState, Action) {
    let (s, a) = edit::start("tok".into(), body);
    assert!(matches!(a, Action::ReadSalt(SaltName::Token)));
    let (s, a) = edit::step(s, Event::Salt("ts".into()));
    match &a {
        Action::FindTokenByValue { value } => assert_eq!(value, "oBZQ4+xHiTucHMBZ590xXh4QZqye0k5hR3/1G/JbWOA="),
        _ => panic!("expected a token lookup"),
    }
    edit::step(s, found_token(valid_until, user))
}

#[test]
fn edit_changes_name_and_password() {
    let body = EditData { username: Some("carol".into()), password: Some("pw".into()) };
    let (s, a) = edit_until_token(Some(body), Some(i64::MAX), Some(uid(5)));
    assert!(matches!(a, Action::ReadSalt(SaltName::User)));
    let (s, a) = edit::step(s, Event::Salt("s".into()));
    match &a {
        Action::UpdateUser { id, username, password } => {
            assert_eq!(id.bytes, [5; 12]);
            assert_eq!(username.as_deref(), Some("carol"));
            assert_eq!(password.as_deref(), Some("iGwgmC3Zc9QC1X/oK6BIktEGIxpsLnT4k0k+2/gkQHM="));
        }
        _ => panic!("expected an update"),
    }
    let (s, a) = edit::step(s, Event::Written);
    assert!(matches!(s, EditState::Done));
    assert_eq!(reply_of(&a), (Status::Success, "changes applied".to_string()));
}

#[test]
fn edit_changes_name_only_or_password_only() {
    let body = EditData { username: Some("carol".into()), password: None };
    let (_, a) = edit_until_token(Some(body), Some(i64::MAX), Some(uid(5)));
    match &a {
        Action::UpdateUser { username, password, .. } => {
            assert_eq!(username.as_deref(), Some("carol"));
            assert!(password.is_none());
        }
        _ => panic!("expected an update"),
    }
    let body = EditData { username: None, password: Some("pw".into()) };
    let (s, _) = edit_until_token(Some(body), Some(i64::MAX), Some(uid(5)));
    let (_, a) = edit::step(s, Event::Salt("s".into()));
    match &a {
        Action::UpdateUser { username, password, .. } => {
            assert!(username.is_none());
            assert_eq!(password.as_deref(), Some("iGwgmC3Zc9QC1X/oK6BIktEGIxpsLnT4k0k+2/gkQHM="));
        }
        _ => panic!("expected an update"),
    }
}

#[test]
fn edit_with_nothing_to_change_or_no_body_is_bad_request() {
    let body = EditData { username: None, password: None };
    let (s, a) = edit_until_token(Some(body), Some(i64::MAX), Some(uid(5)));
    assert!(matches!(s, EditState::Done));
    assert_eq!(reply_of(&a), (Status::BadRequest, String::new()));
    let (_, a) = edit_until_token(None, Some(i64::MAX), Some(uid(5)));
    assert_eq!(reply_of(&a), (Status::BadRequest, String::new()));
}

#[test]
fn edit_with_expired_or_unknown_token_is_unauthorized() {
    let body = EditData { username: Some("x".into()), password: None };
    let (s, a) = edit_until_token(Some(body), Some(1), Some(uid(5)));
    assert!(matches!(a, Action::DeleteToken { .. }));
    let (_, a) = edit::step(s, Event::Written);
    assert_eq!(reply_of(&a), (Status::Unauthorized, String::new()));

    let (s, _) = edit::start("tok".into(), None);
    let (s, _) = edit::step(s, Event::Salt("ts".into()));
    let (_, a) = edit::step(s, Event::Token(None));
    assert_eq!(reply_of(&a), (Status::Unauthorized, String::new()));
    assert_eq!(Status::Unauthorized.code(), 401);
}

#[test]
fn edit_abandons_tokens_without_expiry_or_owner() {
    let body = EditData { username: Some("x".into()), password: None };
    let (_, a) = edit_until_token(Some(body), None, Some(uid(5)));
    assert!(matches!(a, Action::Abort));
    let body = EditData { username: Some("x".into()), password: None };
    let (_, a) = edit_until_token(Some(body), Some(i64::MAX), None);
    assert!(matches!(a, Action::Abort));
}

// ---------------------------------------------------------------- shared

#[test]
fn status_codes_and_salt_names() {
    assert_eq!(Status::Success.code(), 200);
    assert_eq!(Status::BadRequest.code(), 400);
    assert_eq!(Status::NotFound.code(), 404);
    assert_eq!(SaltName::User.variable(), "USER_SALT");
    assert_eq!(SaltName::Token.variable(), "TOKEN_SALT");
}

#[test]
fn events_answer_their_kind() {
    assert!(Event::Written.answers(Awaiting::Write));
    assert!(!Event::Written.answers(Awaiting::Salt));
    assert!(Event::Salt("x".into()).answers(Awaiting::Salt));
    assert!(Event::User(None).answers(Awaiting::User));
    assert!(Event::Token(None).answers(Awaiting::Token));
    assert!(!Event::Token(None).answers(Awaiting::Nothing));
}

// ---------------------------------------------------------------- given clock and token

const TOKEN_TEXT: &str = "oBZQ4+xHiTucHMBZ590xXh4QZqye0k5hR3/1G/JbWOA=";

fn refresh_at_lookup() -> RefreshState {
    RefreshState::AwaitToken { value: TOKEN_TEXT.to_string() }
}

#[test]
fn refresh_advance_keeps_a_token_expiring_now() {
    let (s, a) = refresh::advance(refresh_at_lookup(), found_token(Some(1000), Some(uid(2))), 1000, "fresh".into());
    assert!(matches!(a, Action::ReadSalt(SaltName::Token)));
    match &s {
        RefreshState::AwaitNewSalt { value, new_token } => {
            assert_eq!(value, TOKEN_TEXT);
            assert_eq!(new_token, "fresh");
        }
        _ => panic!("expected a renewal"),
    }
    let (s, a) = refresh::advance(s, Event::Salt("ts".into()), 5, String::new());
    match &a {
        Action::UpdateToken { value, new_value, valid_until } => {
            assert_eq!(value, TOKEN_TEXT);
            assert_eq!(*new_value, salted_hash_text("fresh", "ts"));
            assert_eq!(*valid_until, 300005);
        }
        _ => panic!("expected a token update"),
    }
    let (_, a) = refresh::advance(s, Event::Written, 0, String::new());
    assert_eq!(reply_of(&a), (Status::Success, "fresh".to_string()));
}

#[test]
fn refresh_advance_removes_a_token_expired_a_moment_ago() {
    let (s, a) = refresh::advance(refresh_at_lookup(), found_token(Some(999), Some(uid(2))), 1000, "fresh".into());
    assert!(matches!(s, RefreshState::AwaitDelete));
    match &a {
        Action::DeleteToken { value } => assert_eq!(value, TOKEN_TEXT),
        _ => panic!("expected a deletion"),
    }
}

#[test]
fn refresh_advance_abandons_when_expiry_overflows() {
    let state = RefreshState::AwaitNewSalt { value: TOKEN_TEXT.to_string(), new_token: "fresh".into() };
    let (s, a) = refresh::advance(state, Event::Salt("ts".into()), i64::MAX - 299999, String::new());
    assert!(matches!(s, RefreshState::Done));
    assert!(matches!(a, Action::Abort));
    let state = RefreshState::AwaitNewSalt { value: TOKEN_TEXT.to_string(), new_token: "fresh".into() };
    let (_, a) = refresh::advance(state, Event::Salt("ts".into()), i64::MAX - 300000, String::new());
    assert!(matches!(a, Action::UpdateToken { valid_until: i64::MAX, .. }));
}

#[test]
fn stats_advance_at_the_expiry_boundary() {
    let lookup = || StatsState::AwaitToken { value: TOKEN_TEXT.to_string() };
    let (s, a) = stats::advance(lookup(), found_token(Some(50), Some(uid(4))), 50);
    assert!(matches!(s, StatsState::AwaitUser));
    assert!(matches!(a, Action::FindUserById { .. }));
    let (s, a) = stats::advance(lookup(), found_token(Some(50), Some(uid(4))), 51);
    assert!(matches!(s, StatsState::AwaitDelete));
    assert!(matches!(a, Action::DeleteToken { .. }));
}

#[test]
fn edit_advance_at_the_expiry_boundary() {
    let lookup = || EditState::AwaitToken {
        value: TOKEN_TEXT.to_string(),
        body: Some(EditData { username: Some("x".into()), password: None }),
    };
    let (_, a) = edit::advance(lookup(), found_token(Some(50), Some(uid(5))), 50);
    match &a {
        Action::UpdateUser { id, username, password } => {
            assert_eq!(id.bytes, [5; 12]);
            assert_eq!(username.as_deref(), Some("x"));
            assert!(password.is_none());
        }
        _ => panic!("expected an update"),
    }
    let (s, a) = edit::advance(lookup(), found_token(Some(50), Some(uid(5))), 51);
    assert!(matches!(s, EditState::AwaitDelete));
    assert!(matches!(a, Action::DeleteToken { .. }));
}

#[test]
fn signup_advance_dates_the_token() {
    let record = UserRecord { id: Some(uid(3)), username: None };
    let (s, a) = signup::advance(SignupState::AwaitNewUser, Event::User(Some(record)), 0, "fresh".into());
    assert!(matches!(a, Action::ReadSalt(SaltName::Token)));
    let (s, a) = signup::advance(s, Event::Salt("ts".into()), 7, String::new());
    match &a {
        Action::InsertToken { user_id, value, valid_until } => {
            assert_eq!(user_id.bytes, [3; 12]);
            assert_eq!(*value, salted_hash_text("fresh", "ts"));
            assert_eq!(*valid_until, Some(300007));
        }
        _ => panic!("expected a token insertion"),
    }
    let (_, a) = signup::advance(s, Event::Written, 0, String::new());
    assert_eq!(reply_of(&a), (Status::Success, "fresh".to_string()));

    let state = SignupState::AwaitTokenSalt { user_id: uid(3), token: "fresh".into() };
    let (s, a) = signup::advance(state, Event::Salt("ts".into()), i64::MAX, String::new());
    assert!(matches!(s, SignupState::Done));
    assert!(matches!(a, Action::Abort));
}

#[test]
fn login_advance_issues_the_given_token() {
    let state = LoginState::AwaitTokenOfUser { user_id: uid(9) };
    let (s, a) = login::advance(state, Event::Token(None), "given".into());
    assert!(matches!(a, Action::ReadSalt(SaltName::Token)));
    let (s, a) = login::advance(s, Event::Salt("ts".into()), String::new());
    match &a {
        Action::InsertToken { value, valid_until, .. } => {
            assert_eq!(*value, salted_hash_text("given", "ts"));
            assert!(valid_until.is_none());
        }
        _ => panic!("expected a token insertion"),
    }
    let (_, a) = login::advance(s, Event::Written, String::new());
    assert_eq!(reply_of(&a), (Status::Success, "given".to_string()));
}
