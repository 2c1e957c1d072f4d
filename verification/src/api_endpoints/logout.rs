//! `POST logout`: ends the session of the presented token.

use vstd::prelude::*;
use crate::exchange::{
    answers, awaited_after, empty_reply, is_final, is_reply, text_reply, Action, Awaiting,
    BodyView, Event, Method, SaltName, Status,
};
use crate::hash::{salted_hash_text, salted_text};

verus! {

/// The method under which the endpoint is served.
pub const METHOD: Method = Method::Post;

/// The paths under which the endpoint is served.
pub fn get_endpoints() -> (res: Vec<&'static str>)
    ensures
        res@.len() == 2,
        res@[0]@ == "logout"@,
        res@[1]@ == "signout"@,
{
    let mut v: Vec<&'static str> = Vec::new();
    v.push("logout");
    v.push("signout");
    v
}

/// Where a logout exchange stands.
pub enum LogoutState {
    /// Waiting for `TOKEN_SALT` to hash the presented token with.
    AwaitSalt { token: String },
    /// Waiting for the token stored under this text, if any.
    AwaitToken { value: String },
    /// Waiting for the token to be removed.
    AwaitDelete,
    Done,
}

impl LogoutState {
    pub open spec fn spec_awaiting(self) -> Awaiting {
        match self {
            LogoutState::AwaitSalt { .. } => Awaiting::Salt,
            LogoutState::AwaitToken { .. } => Awaiting::Token,
            LogoutState::AwaitDelete => Awaiting::Write,
            LogoutState::Done => Awaiting::Nothing,
        }
    }

    /// The kind of event this state waits for.
    pub fn awaiting(&self) -> (res: Awaiting)
        ensures
            res == self.spec_awaiting(),
    {
        match self {
            LogoutState::AwaitSalt { .. } => Awaiting::Salt,
            LogoutState::AwaitToken { .. } => Awaiting::Token,
            LogoutState::AwaitDelete => Awaiting::Write,
            LogoutState::Done => Awaiting::Nothing,
        }
    }

    /// How many steps the exchange can still take at most.
    pub open spec fn rank(self) -> nat {
        match self {
            LogoutState::AwaitSalt { .. } => 3,
            LogoutState::AwaitToken { .. } => 2,
            LogoutState::AwaitDelete => 1,
            LogoutState::Done => 0,
        }
    }
}

/// How a logout exchange opens on the `Authorization` header, if present.
pub open spec fn logout_opens(auth: Option<String>, next: LogoutState, action: Action) -> bool {
    match auth {
        None => next is Done && is_reply(action, Status::BadRequest, BodyView::Empty),
        Some(token) => {
            &&& next matches LogoutState::AwaitSalt { token: t }
            &&& t@ == token@
            &&& action == Action::ReadSalt(SaltName::Token)
        },
    }
}

/// One step of a logout exchange.
pub open spec fn logout_next(state: LogoutState, event: Event, next: LogoutState, action: Action) -> bool {
    match (state, event) {
        (LogoutState::AwaitSalt { token }, Event::Salt(salt)) => {
            &&& next matches LogoutState::AwaitToken { value: v }
            &&& v@ == salted_text(token@, salt@)
            &&& action matches Action::FindTokenByValue { value }
            &&& value@ == v@
        },
        (LogoutState::AwaitToken { value }, Event::Token(found)) => match found {
            None => next is Done && is_reply(action, Status::Unauthorized, BodyView::Empty),
            Some(_) => {
                &&& next is AwaitDelete
                &&& action matches Action::DeleteToken { value: v }
                &&& v@ == value@
            },
        },
        (LogoutState::AwaitDelete, Event::Written) => {
            next is Done && is_reply(action, Status::Success, BodyView::Text("logged out"@))
        },
        _ => false,
    }
}

/// Opens a logout exchange on the `Authorization` header, if present.
pub fn start(auth: Option<String>) -> (res: (LogoutState, Action))
    ensures
        logout_opens(auth, res.0, res.1),
{
    match auth {
        None => (LogoutState::Done, empty_reply(Status::BadRequest)),
        Some(token) => (LogoutState::AwaitSalt { token }, Action::ReadSalt(SaltName::Token)),
    }
}

/// Takes one step of a logout exchange on the event that answers its last
/// action.
pub fn step(state: LogoutState, event: Event) -> (res: (LogoutState, Action))
    requires
        answers(event, state.spec_awaiting()),
    ensures
        logout_next(state, event, res.0, res.1),
{
    match state {
        LogoutState::AwaitSalt { token } => match event {
            Event::Salt(salt) => {
                let value = salted_hash_text(token.as_str(), salt.as_str());
                let lookup = value.clone();
                (LogoutState::AwaitToken { value }, Action::FindTokenByValue { value: lookup })
            },
            _ => unreached(),
        },
        LogoutState::AwaitToken { value } => match event {
            Event::Token(found) => match found {
                None => (LogoutState::Done, empty_reply(Status::Unauthorized)),
                Some(_) => (LogoutState::AwaitDelete, Action::DeleteToken { value }),
            },
            _ => unreached(),
        },
        LogoutState::AwaitDelete => match event {
            Event::Written => (LogoutState::Done, text_reply(Status::Success, "logged out")),
            _ => unreached(),
        },
        LogoutState::Done => unreached(),
    }
}

/// Each step of a logout exchange brings it closer to its end, it ends
/// exactly when it sends a reply, and its next action is answered by the
/// event its next state waits for.
pub proof fn logout_steps_progress(state: LogoutState, event: Event, next: LogoutState, action: Action)
    requires
        logout_next(state, event, next, action),
    ensures
        next.rank() < state.rank(),
        next is Done <==> is_final(action),
        awaited_after(action) == next.spec_awaiting(),
{
}

/// The opening of a logout exchange ends it exactly when it sends a reply
/// or abandons the request, and otherwise asks for what its state waits for.
pub proof fn logout_opening_is_consistent(auth: Option<String>, next: LogoutState, action: Action)
    requires
        logout_opens(auth, next, action),
    ensures
        next is Done <==> is_final(action),
        awaited_after(action) == next.spec_awaiting(),
{
}

} // verus!
