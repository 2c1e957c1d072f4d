//! `POST signup`: creates an account from `Basic`-style credentials and opens
//! a session for it.

use vstd::prelude::*;
use vstd::utf8::{decode_utf8, encode_utf8_decode_utf8, valid_utf8};
use crate::exchange::{
    answers, awaited_after, empty_reply, is_final, is_reply, text_reply, Action, Awaiting, Body,
    BodyView, Event, Method, Reply, SaltName, Status, UserId,
};
use crate::fresh::{is_uuid_v4_text, new_token, now_millis, TOKEN_LIFETIME_MS};
use crate::hash::{base64_decode, base64_standard_decode, salted_hash_text, salted_text};
use crate::text::{split_once_at, splits_at_first, utf8_text};

verus! {

/// The method under which the endpoint is served.
pub const METHOD: Method = Method::Post;

/// The paths under which the endpoint is served.
pub fn get_endpoints() -> (res: Vec<&'static str>)
    ensures
        res@.len() == 1,
        res@[0]@ == "signup"@,
{
    let mut v: Vec<&'static str> = Vec::new();
    v.push("signup");
    v
}

/// Where a signup exchange stands.
pub enum SignupState {
    /// Waiting for any user that already has this name.
    AwaitExisting { username: String, password: String },
    /// Waiting for `USER_SALT` to hash the password with.
    AwaitUserSalt { username: String, password: String },
    /// Waiting for the new user to be stored.
    AwaitInsertUser { username: String },
    /// Waiting for the stored user, to learn its identifier.
    AwaitNewUser,
    /// A fresh token was drawn; waiting for `TOKEN_SALT` to hash it with.
    AwaitTokenSalt { user_id: UserId, token: String },
    /// Waiting for the token to be stored.
    AwaitInsertToken { token: String },
    Done,
}

impl SignupState {
    pub open spec fn spec_awaiting(self) -> Awaiting {
        match self {
            SignupState::AwaitExisting { .. } => Awaiting::User,
            SignupState::AwaitUserSalt { .. } => Awaiting::Salt,
            SignupState::AwaitInsertUser { .. } => Awaiting::Write,
            SignupState::AwaitNewUser => Awaiting::User,
            SignupState::AwaitTokenSalt { .. } => Awaiting::Salt,
            SignupState::AwaitInsertToken { .. } => Awaiting::Write,
            SignupState::Done => Awaiting::Nothing,
        }
    }

    /// The kind of event this state waits for.
    pub fn awaiting(&self) -> (res: Awaiting)
        ensures
            res == self.spec_awaiting(),
    {
        match self {
            SignupState::AwaitExisting { .. } => Awaiting::User,
            SignupState::AwaitUserSalt { .. } => Awaiting::Salt,
            SignupState::AwaitInsertUser { .. } => Awaiting::Write,
            SignupState::AwaitNewUser => Awaiting::User,
            SignupState::AwaitTokenSalt { .. } => Awaiting::Salt,
            SignupState::AwaitInsertToken { .. } => Awaiting::Write,
            SignupState::Done => Awaiting::Nothing,
        }
    }

    /// How many steps the exchange can still take at most.
    pub open spec fn rank(self) -> nat {
        match self {
            SignupState::AwaitExisting { .. } => 6,
            SignupState::AwaitUserSalt { .. } => 5,
            SignupState::AwaitInsertUser { .. } => 4,
            SignupState::AwaitNewUser => 3,
            SignupState::AwaitTokenSalt { .. } => 2,
            SignupState::AwaitInsertToken { .. } => 1,
            SignupState::Done => 0,
        }
    }
}

/// How a signup exchange opens on the bytes of the `Authorization` header, if
/// present: they are base64 of the UTF-8 text `name:password`.
pub open spec fn signup_opens(auth: Option<Vec<u8>>, next: SignupState, action: Action) -> bool {
    match auth {
        None => next is Done && is_reply(action, Status::BadRequest, BodyView::Empty),
        Some(header) => match base64_standard_decode(header@) {
            None => next is Done && is_reply(action, Status::BadRequest, BodyView::Empty),
            Some(raw) => if !valid_utf8(raw) {
                next is Done && action is Abort
            } else if !decode_utf8(raw).contains(':') {
                next is Done && is_reply(action, Status::BadRequest, BodyView::Empty)
            } else {
                &&& next matches SignupState::AwaitExisting { username, password }
                &&& splits_at_first(decode_utf8(raw), ':', username@, password@)
                &&& action matches Action::FindUserByName { username: u }
                &&& u@ == username@
            },
        },
    }
}

/// Whether the step from `state` on `event` draws a fresh token: on the
/// stored user, when it has an identifier.
pub open spec fn signup_draws(state: SignupState, event: Event) -> bool {
    &&& state is AwaitNewUser
    &&& event matches Event::User(Some(user))
    &&& user.id is Some
}

/// One step of a signup exchange, with the clock at `now` and `fresh` as the
/// token drawn, where the step uses them.
pub open spec fn signup_next(
    state: SignupState,
    event: Event,
    now: i64,
    fresh: String,
    next: SignupState,
    action: Action,
) -> bool {
    match (state, event) {
        (SignupState::AwaitExisting { username, password }, Event::User(found)) => match found {
            Some(_) => next is Done && is_reply(
                action,
                Status::Forbidden,
                BodyView::Text("User already exists"@),
            ),
            None => {
                &&& next matches SignupState::AwaitUserSalt { username: u, password: p }
                &&& u@ == username@
                &&& p@ == password@
                &&& action == Action::ReadSalt(SaltName::User)
            },
        },
        (SignupState::AwaitUserSalt { username, password }, Event::Salt(salt)) => {
            &&& next matches SignupState::AwaitInsertUser { username: n }
            &&& n@ == username@
            &&& action matches Action::InsertUser { username: u, password: p }
            &&& u@ == username@
            &&& p@ == salted_text(password@, salt@)
        },
        (SignupState::AwaitInsertUser { username }, Event::Written) => {
            &&& next is AwaitNewUser
            &&& action matches Action::FindUserByName { username: u }
            &&& u@ == username@
        },
        (SignupState::AwaitNewUser, Event::User(found)) => match found {
            Some(user) => match user.id {
                Some(id) => {
                    &&& next matches SignupState::AwaitTokenSalt { user_id, token }
                    &&& user_id == id
                    &&& token@ == fresh@
                    &&& action == Action::ReadSalt(SaltName::Token)
                },
                None => next is Done && action is Abort,
            },
            None => next is Done && action is Abort,
        },
        (SignupState::AwaitTokenSalt { user_id, token }, Event::Salt(salt)) => {
            if now <= i64::MAX - TOKEN_LIFETIME_MS {
                &&& next matches SignupState::AwaitInsertToken { token: t }
                &&& t@ == token@
                &&& action matches Action::InsertToken { user_id: u, value, valid_until }
                &&& u == user_id
                &&& value@ == salted_text(token@, salt@)
                &&& valid_until == Some((now + TOKEN_LIFETIME_MS) as i64)
            } else {
                next is Done && action is Abort
            }
        },
        (SignupState::AwaitInsertToken { token }, Event::Written) => {
            next is Done && is_reply(action, Status::Success, BodyView::Text(token@))
        },
        _ => false,
    }
}

/// Opens a signup exchange on the bytes of the `Authorization` header, if
/// present.
pub fn start(auth: Option<Vec<u8>>) -> (res: (SignupState, Action))
    ensures
        signup_opens(auth, res.0, res.1),
{
    match auth {
        None => (SignupState::Done, empty_reply(Status::BadRequest)),
        Some(header) => match base64_decode(header.as_slice()) {
            Err(_) => (SignupState::Done, empty_reply(Status::BadRequest)),
            Ok(raw) => match utf8_text(raw.as_slice()) {
                None => (SignupState::Done, Action::Abort),
                Some(text) => {
                    proof {
                        encode_utf8_decode_utf8(text@);
                    }
                    match split_once_at(text, ':') {
                        None => (SignupState::Done, empty_reply(Status::BadRequest)),
                        Some(parts) => {
                            let username = parts.0.to_owned();
                            let password = parts.1.to_owned();
                            let lookup = parts.0.to_owned();
                            (
                                SignupState::AwaitExisting { username, password },
                                Action::FindUserByName { username: lookup },
                            )
                        },
                    }
                },
            },
        },
    }
}

/// Takes one step of a signup exchange on the event that answers its last
/// action, with `fresh` as the token to issue and the clock at `now`: the
/// token expires five minutes after `now`.
pub fn advance(state: SignupState, event: Event, now: i64, fresh: String) -> (res: (SignupState, Action))
    requires
        answers(event, state.spec_awaiting()),
    ensures
        signup_next(state, event, now, fresh, res.0, res.1),
{
    match state {
        SignupState::AwaitExisting { username, password } => match event {
            Event::User(found) => match found {
                Some(_) => (SignupState::Done, text_reply(Status::Forbidden, "User already exists")),
                None => (
                    SignupState::AwaitUserSalt { username, password },
                    Action::ReadSalt(SaltName::User),
                ),
            },
            _ => unreached(),
        },
        SignupState::AwaitUserSalt { username, password } => match event {
            Event::Salt(salt) => {
                let stored = salted_hash_text(password.as_str(), salt.as_str());
                let name = username.clone();
                (
                    SignupState::AwaitInsertUser { username },
                    Action::InsertUser { username: name, password: stored },
                )
            },
            _ => unreached(),
        },
        SignupState::AwaitInsertUser { username } => match event {
            Event::Written => (SignupState::AwaitNewUser, Action::FindUserByName { username }),
            _ => unreached(),
        },
        SignupState::AwaitNewUser => match event {
            Event::User(found) => match found {
                Some(user) => match user.id {
                    Some(id) => (
                        SignupState::AwaitTokenSalt { user_id: id, token: fresh },
                        Action::ReadSalt(SaltName::Token),
                    ),
                    None => (SignupState::Done, Action::Abort),
                },
                None => (SignupState::Done, Action::Abort),
            },
            _ => unreached(),
        },
        SignupState::AwaitTokenSalt { user_id, token } => match event {
            Event::Salt(salt) => {
                let value = salted_hash_text(token.as_str(), salt.as_str());
                if now <= i64::MAX - TOKEN_LIFETIME_MS {
                    (
                        SignupState::AwaitInsertToken { token },
                        Action::InsertToken {
                            user_id,
                            value,
                            valid_until: Some(now + TOKEN_LIFETIME_MS),
                        },
                    )
                } else {
                    (SignupState::Done, Action::Abort)
                }
            },
            _ => unreached(),
        },
        SignupState::AwaitInsertToken { token } => match event {
            Event::Written => {
                let reply = Action::Respond(Reply { status: Status::Success, body: Body::Text(token) });
                (SignupState::Done, reply)
            },
            _ => unreached(),
        },
        SignupState::Done => unreached(),
    }
}

/// Takes one step of a signup exchange on the event that answers its last
/// action. Where the step needs them, it draws a fresh token (on the stored
/// user) and reads the clock (to date that token), then goes on as `advance`
/// does with those values.
pub fn step(state: SignupState, event: Event) -> (res: (SignupState, Action))
    requires
        answers(event, state.spec_awaiting()),
    ensures
        exists|now: i64, fresh: String|
            #[trigger] signup_next(state, event, now, fresh, res.0, res.1)
                && (signup_draws(state, event) ==> is_uuid_v4_text(fresh@)),
{
    let draws = match (&state, &event) {
        (SignupState::AwaitNewUser, Event::User(Some(user))) => user.id.is_some(),
        _ => false,
    };
    let fresh = if draws { new_token() } else { String::new() };
    let reads_clock = match (&state, &event) {
        (SignupState::AwaitTokenSalt { .. }, Event::Salt(_)) => true,
        _ => false,
    };
    let now: i64 = if reads_clock { now_millis() } else { 0 };
    assert(draws == signup_draws(state, event));
    let ghost drawn = fresh;
    let res = advance(state, event, now, fresh);
    assert(signup_next(state, event, now, drawn, res.0, res.1));
    res
}

/// Each step of a signup exchange brings it closer to its end, it ends
/// exactly when it sends a reply or abandons the request, and its next action
/// is answered by the event its next state waits for.
pub proof fn signup_steps_progress(
    state: SignupState,
    event: Event,
    now: i64,
    fresh: String,
    next: SignupState,
    action: Action,
)
    requires
        signup_next(state, event, now, fresh, next, action),
    ensures
        next.rank() < state.rank(),
        next is Done <==> is_final(action),
        awaited_after(action) == next.spec_awaiting(),
{
}

/// The opening of a signup exchange ends it exactly when it sends a reply
/// or abandons the request, and otherwise asks for what its state waits for.
pub proof fn signup_opening_is_consistent(auth: Option<Vec<u8>>, next: SignupState, action: Action)
    requires
        signup_opens(auth, next, action),
    ensures
        next is Done <==> is_final(action),
        awaited_after(action) == next.spec_awaiting(),
{
}

} // verus!
