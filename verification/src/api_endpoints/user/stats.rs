//! `POST /stats`: reports the user name of the session's account.

use vstd::prelude::*;
use crate::exchange::{
    answers, awaited_after, empty_reply, is_final, is_reply, Action, Awaiting, Body, BodyView,
    Event, Method, Reply, SaltName, StatsData, Status,
};
use crate::fresh::now_millis;
use crate::hash::{salted_hash_text, salted_text};

verus! {

/// The method under which the endpoint is served.
pub const METHOD: Method = Method::Post;

/// The paths under which the endpoint is served.
pub fn get_endpoints() -> (res: Vec<&'static str>)
    ensures
        res@.len() == 2,
        res@[0]@ == "/stats"@,
        res@[1]@ == "/statistics"@,
{
    let mut v: Vec<&'static str> = Vec::new();
    v.push("/stats");
    v.push("/statistics");
    v
}

/// Where a statistics exchange stands.
pub enum StatsState {
    /// Waiting for `TOKEN_SALT` to hash the presented token with.
    AwaitSalt { token: String },
    /// Waiting for the token stored under this text, if any.
    AwaitToken { value: String },
    /// The token was still valid; waiting for its user.
    AwaitUser,
    /// The token had expired; waiting for it to be removed.
    AwaitDelete,
    Done,
}

impl StatsState {
    pub open spec fn spec_awaiting(self) -> Awaiting {
        match self {
            StatsState::AwaitSalt { .. } => Awaiting::Salt,
            StatsState::AwaitToken { .. } => Awaiting::Token,
            StatsState::AwaitUser => Awaiting::User,
            StatsState::AwaitDelete => Awaiting::Write,
            StatsState::Done => Awaiting::Nothing,
        }
    }

    /// The kind of event this state waits for.
    pub fn awaiting(&self) -> (res: Awaiting)
        ensures
            res == self.spec_awaiting(),
    {
        match self {
            StatsState::AwaitSalt { .. } => Awaiting::Salt,
            StatsState::AwaitToken { .. } => Awaiting::Token,
            StatsState::AwaitUser => Awaiting::User,
            StatsState::AwaitDelete => Awaiting::Write,
            StatsState::Done => Awaiting::Nothing,
        }
    }

    /// How many steps the exchange can still take at most.
    pub open spec fn rank(self) -> nat {
        match self {
            StatsState::AwaitSalt { .. } => 3,
            StatsState::AwaitToken { .. } => 2,
            StatsState::AwaitUser => 1,
            StatsState::AwaitDelete => 1,
            StatsState::Done => 0,
        }
    }
}

/// How a statistics exchange opens on the `Authorization` header, if present.
pub open spec fn stats_opens(auth: Option<String>, next: StatsState, action: Action) -> bool {
    match auth {
        None => next is Done && is_reply(action, Status::BadRequest, BodyView::Empty),
        Some(token) => {
            &&& next matches StatsState::AwaitSalt { token: t }
            &&& t@ == token@
            &&& action == Action::ReadSalt(SaltName::Token)
        },
    }
}

/// One step of a statistics exchange, with the clock at `now` where the step
/// uses it.
pub open spec fn stats_next(state: StatsState, event: Event, now: i64, next: StatsState, action: Action) -> bool {
    match (state, event) {
        (StatsState::AwaitSalt { token }, Event::Salt(salt)) => {
            &&& next matches StatsState::AwaitToken { value: v }
            &&& v@ == salted_text(token@, salt@)
            &&& action matches Action::FindTokenByValue { value }
            &&& value@ == v@
        },
        (StatsState::AwaitToken { value }, Event::Token(found)) => match found {
            None => next is Done && is_reply(action, Status::Unauthorized, BodyView::Empty),
            Some(record) => match record.valid_until {
                None => next is Done && action is Abort,
                Some(valid_until) => if valid_until >= now {
                    match record.user_id {
                        Some(id) => next is AwaitUser && action == Action::FindUserById { id },
                        None => next is Done && action is Abort,
                    }
                } else {
                    &&& next is AwaitDelete
                    &&& action matches Action::DeleteToken { value: v }
                    &&& v@ == value@
                },
            },
        },
        (StatsState::AwaitUser, Event::User(found)) => match found {
            Some(user) => match user.username {
                Some(name) => next is Done && is_reply(action, Status::Success, BodyView::Stats(name@)),
                None => next is Done && action is Abort,
            },
            None => next is Done && action is Abort,
        },
        (StatsState::AwaitDelete, Event::Written) => {
            next is Done && is_reply(action, Status::Unauthorized, BodyView::Empty)
        },
        _ => false,
    }
}

/// Opens a statistics exchange on the `Authorization` header, if present.
pub fn start(auth: Option<String>) -> (res: (StatsState, Action))
    ensures
        stats_opens(auth, res.0, res.1),
{
    match auth {
        None => (StatsState::Done, empty_reply(Status::BadRequest)),
        Some(token) => (StatsState::AwaitSalt { token }, Action::ReadSalt(SaltName::Token)),
    }
}

/// Takes one step of a statistics exchange on the event that answers its
/// last action, with the clock at `now`: a stored token is still valid when
/// its expiry is not before `now`.
pub fn advance(state: StatsState, event: Event, now: i64) -> (res: (StatsState, Action))
    requires
        answers(event, state.spec_awaiting()),
    ensures
        stats_next(state, event, now, res.0, res.1),
{
    match state {
        StatsState::AwaitSalt { token } => match event {
            Event::Salt(salt) => {
                let value = salted_hash_text(token.as_str(), salt.as_str());
                let lookup = value.clone();
                (StatsState::AwaitToken { value }, Action::FindTokenByValue { value: lookup })
            },
            _ => unreached(),
        },
        StatsState::AwaitToken { value } => match event {
            Event::Token(found) => match found {
                None => (StatsState::Done, empty_reply(Status::Unauthorized)),
                Some(record) => match record.valid_until {
                    None => (StatsState::Done, Action::Abort),
                    Some(valid_until) => {
                        if valid_until >= now {
                            match record.user_id {
                                Some(id) => (StatsState::AwaitUser, Action::FindUserById { id }),
                                None => (StatsState::Done, Action::Abort),
                            }
                        } else {
                            (StatsState::AwaitDelete, Action::DeleteToken { value })
                        }
                    },
                },
            },
            _ => unreached(),
        },
        StatsState::AwaitUser => match event {
            Event::User(found) => match found {
                Some(user) => match user.username {
                    Some(name) => {
                        let body = Body::Stats(StatsData { username: name });
                        (StatsState::Done, Action::Respond(Reply { status: Status::Success, body }))
                    },
                    None => (StatsState::Done, Action::Abort),
                },
                None => (StatsState::Done, Action::Abort),
            },
            _ => unreached(),
        },
        StatsState::AwaitDelete => match event {
            Event::Written => (StatsState::Done, empty_reply(Status::Unauthorized)),
            _ => unreached(),
        },
        StatsState::Done => unreached(),
    }
}

/// Takes one step of a statistics exchange on the event that answers its
/// last action. On a stored token with an expiry it reads the clock, then
/// goes on as `advance` does with that reading.
pub fn step(state: StatsState, event: Event) -> (res: (StatsState, Action))
    requires
        answers(event, state.spec_awaiting()),
    ensures
        exists|now: i64| #[trigger] stats_next(state, event, now, res.0, res.1),
{
    let reads_clock = match (&state, &event) {
        (StatsState::AwaitToken { .. }, Event::Token(Some(record))) => record.valid_until.is_some(),
        _ => false,
    };
    let now: i64 = if reads_clock { now_millis() } else { 0 };
    let res = advance(state, event, now);
    assert(stats_next(state, event, now, res.0, res.1));
    res
}

/// Each step of a statistics exchange brings it closer to its end, it ends
/// exactly when it sends a reply or abandons the request, and its next action
/// is answered by the event its next state waits for.
pub proof fn stats_steps_progress(state: StatsState, event: Event, now: i64, next: StatsState, action: Action)
    requires
        stats_next(state, event, now, next, action),
    ensures
        next.rank() < state.rank(),
        next is Done <==> is_final(action),
        awaited_after(action) == next.spec_awaiting(),
{
}

/// The opening of a statistics exchange ends it exactly when it sends a
/// reply, and otherwise asks for what its state waits for.
pub proof fn stats_opening_is_consistent(auth: Option<String>, next: StatsState, action: Action)
    requires
        stats_opens(auth, next, action),
    ensures
        next is Done <==> is_final(action),
        awaited_after(action) == next.spec_awaiting(),
{
}

} // verus!
