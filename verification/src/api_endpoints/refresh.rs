//! `POST refresh`: trades a token that is still valid for a fresh one.

use vstd::prelude::*;
use crate::exchange::{
    answers, awaited_after, empty_reply, is_final, is_reply, Action, Awaiting, Body, BodyView,
    Event, Method, Reply, SaltName, Status,
};
use crate::fresh::{is_uuid_v4_text, new_token, now_millis, TOKEN_LIFETIME_MS};
use crate::hash::{salted_hash_text, salted_text};

verus! {

/// The method under which the endpoint is served.
pub const METHOD: Method = Method::Post;

/// The paths under which the endpoint is served.
pub fn get_endpoints() -> (res: Vec<&'static str>)
    ensures
        res@.len() == 1,
        res@[0]@ == "refresh"@,
{
    let mut v: Vec<&'static str> = Vec::new();
    v.push("refresh");
    v
}

/// Where a refresh exchange stands.
pub enum RefreshState {
    /// Waiting for `TOKEN_SALT` to hash the presented token with.
    AwaitSalt { token: String },
    /// Waiting for the token stored under this text, if any.
    AwaitToken { value: String },
    /// The stored token was still valid and a fresh token was drawn; waiting
    /// for `TOKEN_SALT` to hash the fresh token with.
    AwaitNewSalt { value: String, new_token: String },
    /// Waiting for the stored token to be replaced by the fresh one.
    AwaitUpdate { new_token: String },
    /// The stored token had expired; waiting for it to be removed.
    AwaitDelete,
    Done,
}

impl RefreshState {
    pub open spec fn spec_awaiting(self) -> Awaiting {
        match self {
            RefreshState::AwaitSalt { .. } => Awaiting::Salt,
            RefreshState::AwaitToken { .. } => Awaiting::Token,
            RefreshState::AwaitNewSalt { .. } => Awaiting::Salt,
            RefreshState::AwaitUpdate { .. } => Awaiting::Write,
            RefreshState::AwaitDelete => Awaiting::Write,
            RefreshState::Done => Awaiting::Nothing,
        }
    }

    /// The kind of event this state waits for.
    pub fn awaiting(&self) -> (res: Awaiting)
        ensures
            res == self.spec_awaiting(),
    {
        match self {
            RefreshState::AwaitSalt { .. } => Awaiting::Salt,
            RefreshState::AwaitToken { .. } => Awaiting::Token,
            RefreshState::AwaitNewSalt { .. } => Awaiting::Salt,
            RefreshState::AwaitUpdate { .. } => Awaiting::Write,
            RefreshState::AwaitDelete => Awaiting::Write,
            RefreshState::Done => Awaiting::Nothing,
        }
    }

    /// How many steps the exchange can still take at most.
    pub open spec fn rank(self) -> nat {
        match self {
            RefreshState::AwaitSalt { .. } => 4,
            RefreshState::AwaitToken { .. } => 3,
            RefreshState::AwaitNewSalt { .. } => 2,
            RefreshState::AwaitUpdate { .. } => 1,
            RefreshState::AwaitDelete => 1,
            RefreshState::Done => 0,
        }
    }
}

/// How a refresh exchange opens on the `Authorization` header, if present.
pub open spec fn refresh_opens(auth: Option<String>, next: RefreshState, action: Action) -> bool {
    match auth {
        None => next is Done && is_reply(action, Status::BadRequest, BodyView::Empty),
        Some(token) => {
            &&& next matches RefreshState::AwaitSalt { token: t }
            &&& t@ == token@
            &&& action == Action::ReadSalt(SaltName::Token)
        },
    }
}

/// Whether the step from `state` on `event`, with the clock at `now`, draws a
/// fresh token: on a stored token that has not expired at `now`.
pub open spec fn refresh_draws(state: RefreshState, event: Event, now: i64) -> bool {
    &&& state is AwaitToken
    &&& event matches Event::Token(Some(record))
    &&& record.valid_until matches Some(valid_until)
    &&& valid_until >= now
}

/// One step of a refresh exchange, with the clock at `now` and `fresh` as the
/// token drawn, where the step uses them.
pub open spec fn refresh_next(
    state: RefreshState,
    event: Event,
    now: i64,
    fresh: String,
    next: RefreshState,
    action: Action,
) -> bool {
    match (state, event) {
        (RefreshState::AwaitSalt { token }, Event::Salt(salt)) => {
            &&& next matches RefreshState::AwaitToken { value: v }
            &&& v@ == salted_text(token@, salt@)
            &&& action matches Action::FindTokenByValue { value }
            &&& value@ == v@
        },
        (RefreshState::AwaitToken { value }, Event::Token(found)) => match found {
            None => next is Done && is_reply(action, Status::Unauthorized, BodyView::Empty),
            Some(record) => match record.valid_until {
                None => next is Done && action is Abort,
                Some(valid_until) => if valid_until >= now {
                    &&& next matches RefreshState::AwaitNewSalt { value: v, new_token }
                    &&& v@ == value@
                    &&& new_token@ == fresh@
                    &&& action == Action::ReadSalt(SaltName::Token)
                } else {
                    &&& next is AwaitDelete
                    &&& action matches Action::DeleteToken { value: v }
                    &&& v@ == value@
                },
            },
        },
        (RefreshState::AwaitNewSalt { value, new_token }, Event::Salt(salt)) => {
            if now <= i64::MAX - TOKEN_LIFETIME_MS {
                &&& next matches RefreshState::AwaitUpdate { new_token: t }
                &&& t@ == new_token@
                &&& action matches Action::UpdateToken { value: old, new_value, valid_until }
                &&& old@ == value@
                &&& new_value@ == salted_text(new_token@, salt@)
                &&& valid_until == now + TOKEN_LIFETIME_MS
            } else {
                next is Done && action is Abort
            }
        },
        (RefreshState::AwaitUpdate { new_token }, Event::Written) => {
            next is Done && is_reply(action, Status::Success, BodyView::Text(new_token@))
        },
        (RefreshState::AwaitDelete, Event::Written) => {
            next is Done && is_reply(action, Status::Unauthorized, BodyView::Empty)
        },
        _ => false,
    }
}

/// Opens a refresh exchange on the `Authorization` header, if present.
pub fn start(auth: Option<String>) -> (res: (RefreshState, Action))
    ensures
        refresh_opens(auth, res.0, res.1),
{
    match auth {
        None => (RefreshState::Done, empty_reply(Status::BadRequest)),
        Some(token) => (RefreshState::AwaitSalt { token }, Action::ReadSalt(SaltName::Token)),
    }
}

/// Takes one step of a refresh exchange on the event that answers its last
/// action, with the clock at `now` and `fresh` as the token to issue: a
/// stored token is still valid when its expiry is not before `now`, and the
/// replacement expires five minutes after `now`.
pub fn advance(state: RefreshState, event: Event, now: i64, fresh: String) -> (res: (RefreshState, Action))
    requires
        answers(event, state.spec_awaiting()),
    ensures
        refresh_next(state, event, now, fresh, res.0, res.1),
{
    match state {
        RefreshState::AwaitSalt { token } => match event {
            Event::Salt(salt) => {
                let value = salted_hash_text(token.as_str(), salt.as_str());
                let lookup = value.clone();
                (RefreshState::AwaitToken { value }, Action::FindTokenByValue { value: lookup })
            },
            _ => unreached(),
        },
        RefreshState::AwaitToken { value } => match event {
            Event::Token(found) => match found {
                None => (RefreshState::Done, empty_reply(Status::Unauthorized)),
                Some(record) => match record.valid_until {
                    None => (RefreshState::Done, Action::Abort),
                    Some(valid_until) => {
                        if valid_until >= now {
                            (
                                RefreshState::AwaitNewSalt { value, new_token: fresh },
                                Action::ReadSalt(SaltName::Token),
                            )
                        } else {
                            (RefreshState::AwaitDelete, Action::DeleteToken { value })
                        }
                    },
                },
            },
            _ => unreached(),
        },
        RefreshState::AwaitNewSalt { value, new_token } => match event {
            Event::Salt(salt) => {
                let new_value = salted_hash_text(new_token.as_str(), salt.as_str());
                if now <= i64::MAX - TOKEN_LIFETIME_MS {
                    (
                        RefreshState::AwaitUpdate { new_token },
                        Action::UpdateToken { value, new_value, valid_until: now + TOKEN_LIFETIME_MS },
                    )
                } else {
                    (RefreshState::Done, Action::Abort)
                }
            },
            _ => unreached(),
        },
        RefreshState::AwaitUpdate { new_token } => match event {
            Event::Written => {
                let reply = Action::Respond(Reply { status: Status::Success, body: Body::Text(new_token) });
                (RefreshState::Done, reply)
            },
            _ => unreached(),
        },
        RefreshState::AwaitDelete => match event {
            Event::Written => (RefreshState::Done, empty_reply(Status::Unauthorized)),
            _ => unreached(),
        },
        RefreshState::Done => unreached(),
    }
}

/// Takes one step of a refresh exchange on the event that answers its last
/// action. Where the step needs them, it reads the clock (on a stored token
/// with an expiry, and again to date the fresh token) and draws a fresh
/// token (on a stored token that has not expired), then goes on as
/// `advance` does with those values.
pub fn step(state: RefreshState, event: Event) -> (res: (RefreshState, Action))
    requires
        answers(event, state.spec_awaiting()),
    ensures
        exists|now: i64, fresh: String|
            #[trigger] refresh_next(state, event, now, fresh, res.0, res.1)
                && (refresh_draws(state, event, now) ==> is_uuid_v4_text(fresh@)),
{
    let reads_clock = match (&state, &event) {
        (RefreshState::AwaitToken { .. }, Event::Token(Some(record))) => record.valid_until.is_some(),
        (RefreshState::AwaitNewSalt { .. }, Event::Salt(_)) => true,
        _ => false,
    };
    let now: i64 = if reads_clock { now_millis() } else { 0 };
    let draws = match (&state, &event) {
        (RefreshState::AwaitToken { .. }, Event::Token(Some(record))) => match record.valid_until {
            Some(valid_until) => valid_until >= now,
            None => false,
        },
        _ => false,
    };
    let fresh = if draws { new_token() } else { String::new() };
    assert(draws == refresh_draws(state, event, now));
    let ghost drawn = fresh;
    let res = advance(state, event, now, fresh);
    assert(refresh_next(state, event, now, drawn, res.0, res.1));
    res
}

/// Each step of a refresh exchange brings it closer to its end, it ends
/// exactly when it sends a reply or abandons the request, and its next action
/// is answered by the event its next state waits for.
pub proof fn refresh_steps_progress(
    state: RefreshState,
    event: Event,
    now: i64,
    fresh: String,
    next: RefreshState,
    action: Action,
)
    requires
        refresh_next(state, event, now, fresh, next, action),
    ensures
        next.rank() < state.rank(),
        next is Done <==> is_final(action),
        awaited_after(action) == next.spec_awaiting(),
{
}

/// The opening of a refresh exchange ends it exactly when it sends a reply
/// or abandons the request, and otherwise asks for what its state waits for.
pub proof fn refresh_opening_is_consistent(auth: Option<String>, next: RefreshState, action: Action)
    requires
        refresh_opens(auth, next, action),
    ensures
        next is Done <==> is_final(action),
        awaited_after(action) == next.spec_awaiting(),
{
}

} // verus!
