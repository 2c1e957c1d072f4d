//! `POST /login`: checks a user name and password and opens a session.

use vstd::prelude::*;
use crate::exchange::{
    answers, awaited_after, empty_reply, is_final, is_reply, text_reply, Action, Awaiting, Body,
    BodyView, Event, Method, Reply, SaltName, Status, UserId,
};
use crate::fresh::{is_uuid_v4_text, new_token};
use crate::hash::{salted_hash_text, salted_text};

verus! {

/// The method under which the endpoint is served.
pub const METHOD: Method = Method::Post;

/// The paths under which the endpoint is served.
pub fn get_endpoints() -> (res: Vec<&'static str>)
    ensures
        res@.len() == 2,
        res@[0]@ == "/login"@,
        res@[1]@ == "/signin"@,
{
    let mut v: Vec<&'static str> = Vec::new();
    v.push("/login");
    v.push("/signin");
    v
}

/// The JSON body of a login request.
pub struct LoginData {
    pub username: String,
    pub password: String,
}

/// Where a login exchange stands.
pub enum LoginState {
    /// Waiting for `USER_SALT` to hash the password with.
    AwaitUserSalt { username: String, password: String },
    /// Waiting for the user with these credentials.
    AwaitUser,
    /// Waiting for the user's current token, if any.
    AwaitTokenOfUser { user_id: UserId },
    /// A fresh token was drawn; waiting for `TOKEN_SALT` to hash it with.
    AwaitTokenSalt { user_id: UserId, token: String },
    /// Waiting for the hashed token to be stored.
    AwaitInsert { token: String },
    Done,
}

impl LoginState {
    pub open spec fn spec_awaiting(self) -> Awaiting {
        match self {
            LoginState::AwaitUserSalt { .. } => Awaiting::Salt,
            LoginState::AwaitUser => Awaiting::User,
            LoginState::AwaitTokenOfUser { .. } => Awaiting::Token,
            LoginState::AwaitTokenSalt { .. } => Awaiting::Salt,
            LoginState::AwaitInsert { .. } => Awaiting::Write,
            LoginState::Done => Awaiting::Nothing,
        }
    }

    /// The kind of event this state waits for.
    pub fn awaiting(&self) -> (res: Awaiting)
        ensures
            res == self.spec_awaiting(),
    {
        match self {
            LoginState::AwaitUserSalt { .. } => Awaiting::Salt,
            LoginState::AwaitUser => Awaiting::User,
            LoginState::AwaitTokenOfUser { .. } => Awaiting::Token,
            LoginState::AwaitTokenSalt { .. } => Awaiting::Salt,
            LoginState::AwaitInsert { .. } => Awaiting::Write,
            LoginState::Done => Awaiting::Nothing,
        }
    }

    /// How many steps the exchange can still take at most.
    pub open spec fn rank(self) -> nat {
        match self {
            LoginState::AwaitUserSalt { .. } => 5,
            LoginState::AwaitUser => 4,
            LoginState::AwaitTokenOfUser { .. } => 3,
            LoginState::AwaitTokenSalt { .. } => 2,
            LoginState::AwaitInsert { .. } => 1,
            LoginState::Done => 0,
        }
    }
}

/// How a login exchange opens on the request body (`None` where it could not
/// be read or is not a JSON `LoginData`).
pub open spec fn login_opens(body: Option<LoginData>, next: LoginState, action: Action) -> bool {
    match body {
        None => next is Done && is_reply(action, Status::BadRequest, BodyView::Empty),
        Some(data) => {
            &&& next matches LoginState::AwaitUserSalt { username, password }
            &&& username@ == data.username@
            &&& password@ == data.password@
            &&& action == Action::ReadSalt(SaltName::User)
        },
    }
}

/// Whether the step from `state` on `event` draws a fresh token: when the
/// user has no token yet.
pub open spec fn login_draws(state: LoginState, event: Event) -> bool {
    state is AwaitTokenOfUser && event == Event::Token(None)
}

/// One step of a login exchange: from `state`, on `event`, with `fresh` as
/// the token drawn where the step uses one, to `next`, asking for `action`.
pub open spec fn login_next(
    state: LoginState,
    event: Event,
    fresh: String,
    next: LoginState,
    action: Action,
) -> bool {
    match (state, event) {
        (LoginState::AwaitUserSalt { username, password }, Event::Salt(salt)) => {
            &&& next is AwaitUser
            &&& action matches Action::FindUserByLogin { username: u, password: p }
            &&& u@ == username@
            &&& p@ == salted_text(password@, salt@)
        },
        (LoginState::AwaitUser, Event::User(found)) => match found {
            None => next is Done && is_reply(
                action,
                Status::Unauthorized,
                BodyView::Text("Invalid credentials"@),
            ),
            Some(user) => match user.id {
                None => next is Done && action is Abort,
                Some(id) => {
                    &&& next == LoginState::AwaitTokenOfUser { user_id: id }
                    &&& action == Action::FindTokenByUser { user_id: id }
                },
            },
        },
        (LoginState::AwaitTokenOfUser { user_id }, Event::Token(found)) => match found {
            Some(_) => next is Done && is_reply(action, Status::TooManyRequests, BodyView::Empty),
            None => {
                &&& next matches LoginState::AwaitTokenSalt { user_id: u, token }
                &&& u == user_id
                &&& token@ == fresh@
                &&& action == Action::ReadSalt(SaltName::Token)
            },
        },
        (LoginState::AwaitTokenSalt { user_id, token }, Event::Salt(salt)) => {
            &&& next matches LoginState::AwaitInsert { token: t }
            &&& t@ == token@
            &&& action matches Action::InsertToken { user_id: u, value, valid_until }
            &&& u == user_id
            &&& value@ == salted_text(token@, salt@)
            &&& valid_until is None
        },
        (LoginState::AwaitInsert { token }, Event::Written) => {
            next is Done && is_reply(action, Status::Success, BodyView::Text(token@))
        },
        _ => false,
    }
}

/// Opens a login exchange on the request body (`None` where it could not be
/// read or parsed).
pub fn start(body: Option<LoginData>) -> (res: (LoginState, Action))
    ensures
        login_opens(body, res.0, res.1),
{
    match body {
        None => (LoginState::Done, empty_reply(Status::BadRequest)),
        Some(data) => (
            LoginState::AwaitUserSalt { username: data.username, password: data.password },
            Action::ReadSalt(SaltName::User),
        ),
    }
}

/// Takes one step of a login exchange on the event that answers its last
/// action, with `fresh` as the token to issue.
pub fn advance(state: LoginState, event: Event, fresh: String) -> (res: (LoginState, Action))
    requires
        answers(event, state.spec_awaiting()),
    ensures
        login_next(state, event, fresh, res.0, res.1),
{
    match state {
        LoginState::AwaitUserSalt { username, password } => match event {
            Event::Salt(salt) => {
                let stored = salted_hash_text(password.as_str(), salt.as_str());
                (LoginState::AwaitUser, Action::FindUserByLogin { username, password: stored })
            },
            _ => unreached(),
        },
        LoginState::AwaitUser => match event {
            Event::User(found) => match found {
                None => (
                    LoginState::Done,
                    text_reply(Status::Unauthorized, "Invalid credentials"),
                ),
                Some(user) => match user.id {
                    None => (LoginState::Done, Action::Abort),
                    Some(id) => (
                        LoginState::AwaitTokenOfUser { user_id: id },
                        Action::FindTokenByUser { user_id: id },
                    ),
                },
            },
            _ => unreached(),
        },
        LoginState::AwaitTokenOfUser { user_id } => match event {
            Event::Token(found) => match found {
                Some(_) => (LoginState::Done, empty_reply(Status::TooManyRequests)),
                None => (
                    LoginState::AwaitTokenSalt { user_id, token: fresh },
                    Action::ReadSalt(SaltName::Token),
                ),
            },
            _ => unreached(),
        },
        LoginState::AwaitTokenSalt { user_id, token } => match event {
            Event::Salt(salt) => {
                let value = salted_hash_text(token.as_str(), salt.as_str());
                (
                    LoginState::AwaitInsert { token },
                    Action::InsertToken { user_id, value, valid_until: None },
                )
            },
            _ => unreached(),
        },
        LoginState::AwaitInsert { token } => match event {
            Event::Written => {
                let reply = Action::Respond(Reply { status: Status::Success, body: Body::Text(token) });
                (LoginState::Done, reply)
            },
            _ => unreached(),
        },
        LoginState::Done => unreached(),
    }
}

/// Takes one step of a login exchange on the event that answers its last
/// action. When the user has no token yet it draws a fresh one, then goes on
/// as `advance` does with it.
pub fn step(state: LoginState, event: Event) -> (res: (LoginState, Action))
    requires
        answers(event, state.spec_awaiting()),
    ensures
        exists|fresh: String|
            #[trigger] login_next(state, event, fresh, res.0, res.1)
                && (login_draws(state, event) ==> is_uuid_v4_text(fresh@)),
{
    let draws = match (&state, &event) {
        (LoginState::AwaitTokenOfUser { .. }, Event::Token(None)) => true,
        _ => false,
    };
    let fresh = if draws { new_token() } else { String::new() };
    assert(draws == login_draws(state, event));
    let ghost drawn = fresh;
    let res = advance(state, event, fresh);
    assert(login_next(state, event, drawn, res.0, res.1));
    res
}

/// Each step of a login exchange brings it closer to its end, it ends exactly
/// when it sends a reply or abandons the request, and its next action is
/// answered by the event its next state waits for.
pub proof fn login_steps_progress(
    state: LoginState,
    event: Event,
    fresh: String,
    next: LoginState,
    action: Action,
)
    requires
        login_next(state, event, fresh, next, action),
    ensures
        next.rank() < state.rank(),
        next is Done <==> is_final(action),
        awaited_after(action) == next.spec_awaiting(),
{
}

/// The opening of a login exchange ends it exactly when it sends a reply
/// or abandons the request, and otherwise asks for what its state waits for.
pub proof fn login_opening_is_consistent(body: Option<LoginData>, next: LoginState, action: Action)
    requires
        login_opens(body, next, action),
    ensures
        next is Done <==> is_final(action),
        awaited_after(action) == next.spec_awaiting(),
{
}

} // verus!
