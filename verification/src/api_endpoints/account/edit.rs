//! `POST /account/edit`: changes the user name and/or password of the
//! session's account.

use vstd::prelude::*;
use crate::exchange::{
    answers, awaited_after, empty_reply, is_final, is_reply, text_opt, text_reply, Action,
    Awaiting, BodyView, Event, Method, SaltName, Status, UserId,
};
use crate::fresh::now_millis;
use crate::hash::{salted_hash_text, salted_text};

verus! {

/// The method under which the endpoint is served.
pub const METHOD: Method = Method::Post;

/// The paths under which the endpoint is served.
pub fn get_endpoints() -> (res: Vec<&'static str>)
    ensures
        res@.len() == 1,
        res@[0]@ == "/account/edit"@,
{
    let mut v: Vec<&'static str> = Vec::new();
    v.push("/account/edit");
    v
}

/// The JSON body of an edit request: the fields to change.
pub struct EditData {
    pub username: Option<String>,
    pub password: Option<String>,
}

/// Where an edit exchange stands.
pub enum EditState {
    /// Waiting for `TOKEN_SALT` to hash the presented token with.
    AwaitSalt { token: String, body: Option<EditData> },
    /// Waiting for the token stored under this text, if any.
    AwaitToken { value: String, body: Option<EditData> },
    /// The token was still valid; waiting for `USER_SALT` to hash the new
    /// password with.
    AwaitUserSalt { user_id: Option<UserId>, username: Option<String>, password: String },
    /// The token was still valid; waiting for the user to be changed.
    AwaitUpdate,
    /// The token had expired; waiting for it to be removed.
    AwaitDelete,
    Done,
}

impl EditState {
    pub open spec fn spec_awaiting(self) -> Awaiting {
        match self {
            EditState::AwaitSalt { .. } => Awaiting::Salt,
            EditState::AwaitToken { .. } => Awaiting::Token,
            EditState::AwaitUserSalt { .. } => Awaiting::Salt,
            EditState::AwaitUpdate => Awaiting::Write,
            EditState::AwaitDelete => Awaiting::Write,
            EditState::Done => Awaiting::Nothing,
        }
    }

    /// The kind of event this state waits for.
    pub fn awaiting(&self) -> (res: Awaiting)
        ensures
            res == self.spec_awaiting(),
    {
        match self {
            EditState::AwaitSalt { .. } => Awaiting::Salt,
            EditState::AwaitToken { .. } => Awaiting::Token,
            EditState::AwaitUserSalt { .. } => Awaiting::Salt,
            EditState::AwaitUpdate => Awaiting::Write,
            EditState::AwaitDelete => Awaiting::Write,
            EditState::Done => Awaiting::Nothing,
        }
    }

    /// How many steps the exchange can still take at most.
    pub open spec fn rank(self) -> nat {
        match self {
            EditState::AwaitSalt { .. } => 4,
            EditState::AwaitToken { .. } => 3,
            EditState::AwaitUserSalt { .. } => 2,
            EditState::AwaitUpdate => 1,
            EditState::AwaitDelete => 1,
            EditState::Done => 0,
        }
    }
}

/// The text of an optional edit body.
pub open spec fn edit_view(body: Option<EditData>) -> Option<(Option<Seq<char>>, Option<Seq<char>>)> {
    match body {
        Some(d) => Some((text_opt(d.username), text_opt(d.password))),
        None => None,
    }
}

/// How an edit exchange opens on the presented token and the request body
/// (`None` where it could not be read or is not a JSON `EditData`).
pub open spec fn edit_opens(token: String, body: Option<EditData>, next: EditState, action: Action) -> bool {
    &&& next matches EditState::AwaitSalt { token: t, body: b }
    &&& t@ == token@
    &&& edit_view(b) == edit_view(body)
    &&& action == Action::ReadSalt(SaltName::Token)
}

/// What an edit exchange does once its token proved still valid.
pub open spec fn edit_when_valid(
    body: Option<EditData>,
    user_id: Option<UserId>,
    next: EditState,
    action: Action,
) -> bool {
    match body {
        None => next is Done && is_reply(action, Status::BadRequest, BodyView::Empty),
        Some(data) => match data.password {
            Some(password) => {
                &&& next matches EditState::AwaitUserSalt { user_id: i, username: u, password: p }
                &&& i == user_id
                &&& text_opt(u) == text_opt(data.username)
                &&& p@ == password@
                &&& action == Action::ReadSalt(SaltName::User)
            },
            None => match data.username {
                None => next is Done && is_reply(action, Status::BadRequest, BodyView::Empty),
                Some(username) => match user_id {
                    None => next is Done && action is Abort,
                    Some(id) => {
                        &&& next is AwaitUpdate
                        &&& action matches Action::UpdateUser { id: i, username: u, password: p }
                        &&& i == id
                        &&& text_opt(u) == Some(username@)
                        &&& p is None
                    },
                },
            },
        },
    }
}

/// One step of an edit exchange, with the clock at `now` where the step uses
/// it.
pub open spec fn edit_next(state: EditState, event: Event, now: i64, next: EditState, action: Action) -> bool {
    match (state, event) {
        (EditState::AwaitSalt { token, body }, Event::Salt(salt)) => {
            &&& next matches EditState::AwaitToken { value: v, body: b }
            &&& v@ == salted_text(token@, salt@)
            &&& edit_view(b) == edit_view(body)
            &&& action matches Action::FindTokenByValue { value }
            &&& value@ == v@
        },
        (EditState::AwaitToken { value, body }, Event::Token(found)) => match found {
            None => next is Done && is_reply(action, Status::Unauthorized, BodyView::Empty),
            Some(record) => match record.valid_until {
                None => next is Done && action is Abort,
                Some(valid_until) => if valid_until >= now {
                    edit_when_valid(body, record.user_id, next, action)
                } else {
                    &&& next is AwaitDelete
                    &&& action matches Action::DeleteToken { value: v }
                    &&& v@ == value@
                },
            },
        },
        (EditState::AwaitUserSalt { user_id, username, password }, Event::Salt(salt)) => {
            match user_id {
                None => next is Done && action is Abort,
                Some(id) => {
                    &&& next is AwaitUpdate
                    &&& action matches Action::UpdateUser { id: i, username: u, password: p }
                    &&& i == id
                    &&& text_opt(u) == text_opt(username)
                    &&& text_opt(p) == Some(salted_text(password@, salt@))
                },
            }
        },
        (EditState::AwaitUpdate, Event::Written) => {
            next is Done && is_reply(action, Status::Success, BodyView::Text("changes applied"@))
        },
        (EditState::AwaitDelete, Event::Written) => {
            next is Done && is_reply(action, Status::Unauthorized, BodyView::Empty)
        },
        _ => false,
    }
}

/// Opens an edit exchange on the presented token and the request body
/// (`None` where it could not be read or parsed).
pub fn start(token: String, body: Option<EditData>) -> (res: (EditState, Action))
    ensures
        edit_opens(token, body, res.0, res.1),
{
    (EditState::AwaitSalt { token, body }, Action::ReadSalt(SaltName::Token))
}

/// Decides what to do once the token proved still valid.
fn when_valid(body: Option<EditData>, user_id: Option<UserId>) -> (res: (EditState, Action))
    ensures
        edit_when_valid(body, user_id, res.0, res.1),
{
    match body {
        None => (EditState::Done, empty_reply(Status::BadRequest)),
        Some(data) => match data.password {
            Some(password) => (
                EditState::AwaitUserSalt { user_id, username: data.username, password },
                Action::ReadSalt(SaltName::User),
            ),
            None => match data.username {
                None => (EditState::Done, empty_reply(Status::BadRequest)),
                Some(username) => match user_id {
                    None => (EditState::Done, Action::Abort),
                    Some(id) => (
                        EditState::AwaitUpdate,
                        Action::UpdateUser { id, username: Some(username), password: None },
                    ),
                },
            },
        },
    }
}

/// Takes one step of an edit exchange on the event that answers its last
/// action, with the clock at `now`: a stored token is still valid when its
/// expiry is not before `now`.
pub fn advance(state: EditState, event: Event, now: i64) -> (res: (EditState, Action))
    requires
        answers(event, state.spec_awaiting()),
    ensures
        edit_next(state, event, now, res.0, res.1),
{
    match state {
        EditState::AwaitSalt { token, body } => match event {
            Event::Salt(salt) => {
                let value = salted_hash_text(token.as_str(), salt.as_str());
                let lookup = value.clone();
                (EditState::AwaitToken { value, body }, Action::FindTokenByValue { value: lookup })
            },
            _ => unreached(),
        },
        EditState::AwaitToken { value, body } => match event {
            Event::Token(found) => match found {
                None => (EditState::Done, empty_reply(Status::Unauthorized)),
                Some(record) => match record.valid_until {
                    None => (EditState::Done, Action::Abort),
                    Some(valid_until) => {
                        if valid_until >= now {
                            when_valid(body, record.user_id)
                        } else {
                            (EditState::AwaitDelete, Action::DeleteToken { value })
                        }
                    },
                },
            },
            _ => unreached(),
        },
        EditState::AwaitUserSalt { user_id, username, password } => match event {
            Event::Salt(salt) => {
                let stored = salted_hash_text(password.as_str(), salt.as_str());
                match user_id {
                    None => (EditState::Done, Action::Abort),
                    Some(id) => (
                        EditState::AwaitUpdate,
                        Action::UpdateUser { id, username, password: Some(stored) },
                    ),
                }
            },
            _ => unreached(),
        },
        EditState::AwaitUpdate => match event {
            Event::Written => (EditState::Done, text_reply(Status::Success, "changes applied")),
            _ => unreached(),
        },
        EditState::AwaitDelete => match event {
            Event::Written => (EditState::Done, empty_reply(Status::Unauthorized)),
            _ => unreached(),
        },
        EditState::Done => unreached(),
    }
}

/// Takes one step of an edit exchange on the event that answers its last
/// action. On a stored token with an expiry it reads the clock, then goes on
/// as `advance` does with that reading.
pub fn step(state: EditState, event: Event) -> (res: (EditState, Action))
    requires
        answers(event, state.spec_awaiting()),
    ensures
        exists|now: i64| #[trigger] edit_next(state, event, now, res.0, res.1),
{
    let reads_clock = match (&state, &event) {
        (EditState::AwaitToken { .. }, Event::Token(Some(record))) => record.valid_until.is_some(),
        _ => false,
    };
    let now: i64 = if reads_clock { now_millis() } else { 0 };
    let res = advance(state, event, now);
    assert(edit_next(state, event, now, res.0, res.1));
    res
}

/// Each step of an edit exchange brings it closer to its end, it ends exactly
/// when it sends a reply or abandons the request, and its next action is
/// answered by the event its next state waits for.
pub proof fn edit_steps_progress(state: EditState, event: Event, now: i64, next: EditState, action: Action)
    requires
        edit_next(state, event, now, next, action),
    ensures
        next.rank() < state.rank(),
        next is Done <==> is_final(action),
        awaited_after(action) == next.spec_awaiting(),
{
}

/// The opening of an edit exchange ends it exactly when it sends a reply
/// or abandons the request, and otherwise asks for what its state waits for.
pub proof fn edit_opening_is_consistent(
    token: String,
    body: Option<EditData>,
    next: EditState,
    action: Action,
)
    requires
        edit_opens(token, body, next, action),
    ensures
        next is Done <==> is_final(action),
        awaited_after(action) == next.spec_awaiting(),
{
}

} // verus!
