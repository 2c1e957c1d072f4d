//! The vocabulary shared by the endpoint state machines: what a machine asks
//! its caller to do (`Action`), what the caller reports back (`Event`), and
//! the reply that ends an exchange.

use vstd::prelude::*;

verus! {

/// The HTTP method of a request, as far as routing distinguishes it.
#[derive(Clone, Copy, PartialEq, Eq, Structural, Debug)]
pub enum Method {
    Get,
    Post,
    Put,
    Delete,
    Patch,
    Head,
    Options,
    Other,
}

/// The status line of a reply.
#[derive(Clone, Copy, PartialEq, Eq, Structural, Debug)]
pub enum Status {
    Success,
    BadRequest,
    Unauthorized,
    Forbidden,
    NotFound,
    TooManyRequests,
}

pub open spec fn status_code(status: Status) -> u16 {
    match status {
        Status::Success => 200,
        Status::BadRequest => 400,
        Status::Unauthorized => 401,
        Status::Forbidden => 403,
        Status::NotFound => 404,
        Status::TooManyRequests => 429,
    }
}

impl Status {
    /// The numeric HTTP status code.
    pub fn code(&self) -> (res: u16)
        ensures
            res == status_code(*self),
    {
        match self {
            Status::Success => 200,
            Status::BadRequest => 400,
            Status::Unauthorized => 401,
            Status::Forbidden => 403,
            Status::NotFound => 404,
            Status::TooManyRequests => 429,
        }
    }
}

/// The statistics that are reported of an account: its user name.
pub struct StatsData {
    pub username: String,
}

/// The body of a reply.
pub enum Body {
    Empty,
    Text(String),
    /// The JSON object `{"username": ...}` of the account's statistics.
    Stats(StatsData),
}

/// A body as plain text values.
pub enum BodyView {
    Empty,
    Text(Seq<char>),
    Stats(Seq<char>),
}

impl View for Body {
    type V = BodyView;

    open spec fn view(&self) -> BodyView {
        match self {
            Body::Empty => BodyView::Empty,
            Body::Text(t) => BodyView::Text(t@),
            Body::Stats(s) => BodyView::Stats(s.username@),
        }
    }
}

/// A reply: its status and its body.
pub struct Reply {
    pub status: Status,
    pub body: Body,
}

/// Which secret salt an action reads from the environment.
#[derive(Clone, Copy, PartialEq, Eq, Structural, Debug)]
pub enum SaltName {
    /// `USER_SALT`, under which passwords are hashed.
    User,
    /// `TOKEN_SALT`, under which session tokens are hashed.
    Token,
}

pub open spec fn salt_variable(name: SaltName) -> Seq<char> {
    match name {
        SaltName::User => "USER_SALT"@,
        SaltName::Token => "TOKEN_SALT"@,
    }
}

impl SaltName {
    /// The name of the environment variable that holds the salt.
    pub fn variable(&self) -> (res: &'static str)
        ensures
            res@ == salt_variable(*self),
    {
        match self {
            SaltName::User => "USER_SALT",
            SaltName::Token => "TOKEN_SALT",
        }
    }
}

/// The identifier of a stored user (a 12-byte object id).
#[derive(Clone, Copy, Debug)]
pub struct UserId {
    pub bytes: [u8; 12],
}

/// What a user lookup found: the user's identifier and name, each where the
/// stored document holds one of the expected type.
pub struct UserRecord {
    pub id: Option<UserId>,
    pub username: Option<String>,
}

/// What a token lookup found: the owning user and the expiry time in
/// milliseconds since the epoch, each where the stored document holds one of
/// the expected type.
pub struct TokenRecord {
    pub user_id: Option<UserId>,
    pub valid_until: Option<i64>,
}

/// What the caller reports after carrying out an action.
pub enum Event {
    /// The value of the salt that `ReadSalt` asked for.
    Salt(String),
    /// The user that a user lookup found, if any.
    User(Option<UserRecord>),
    /// The token that a token lookup found, if any.
    Token(Option<TokenRecord>),
    /// An insertion, update or deletion went through.
    Written,
}

/// The kind of event that a machine waits for.
#[derive(Clone, Copy, PartialEq, Eq, Structural, Debug)]
pub enum Awaiting {
    Salt,
    User,
    Token,
    Write,
    /// The exchange is over; no event is taken.
    Nothing,
}

pub open spec fn answers(event: Event, awaiting: Awaiting) -> bool {
    match event {
        Event::Salt(_) => awaiting == Awaiting::Salt,
        Event::User(_) => awaiting == Awaiting::User,
        Event::Token(_) => awaiting == Awaiting::Token,
        Event::Written => awaiting == Awaiting::Write,
    }
}

impl Event {
    /// Whether this event is of the kind that is awaited.
    pub fn answers(&self, awaiting: Awaiting) -> (res: bool)
        ensures
            res == answers(*self, awaiting),
    {
        match self {
            Event::Salt(_) => awaiting == Awaiting::Salt,
            Event::User(_) => awaiting == Awaiting::User,
            Event::Token(_) => awaiting == Awaiting::Token,
            Event::Written => awaiting == Awaiting::Write,
        }
    }
}

/// What a machine asks its caller to do next.
pub enum Action {
    /// Read the salt from the environment; answered by `Event::Salt`.
    ReadSalt(SaltName),
    /// Find the user with this name and stored password text; answered by
    /// `Event::User`.
    FindUserByLogin { username: String, password: String },
    /// Find the user with this name; answered by `Event::User`.
    FindUserByName { username: String },
    /// Find the user with this identifier; answered by `Event::User`.
    FindUserById { id: UserId },
    /// Store a new user; answered by `Event::Written`.
    InsertUser { username: String, password: String },
    /// Set the given fields of a user; answered by `Event::Written`.
    UpdateUser { id: UserId, username: Option<String>, password: Option<String> },
    /// Find the token of this user; answered by `Event::Token`.
    FindTokenByUser { user_id: UserId },
    /// Find the token stored under this text; answered by `Event::Token`.
    FindTokenByValue { value: String },
    /// Store a token; answered by `Event::Written`.
    InsertToken { user_id: UserId, value: String, valid_until: Option<i64> },
    /// Replace the token stored under `value` by `new_value` with a new
    /// expiry; answered by `Event::Written`.
    UpdateToken { value: String, new_value: String, valid_until: i64 },
    /// Remove the token stored under this text; answered by `Event::Written`.
    DeleteToken { value: String },
    /// Send this reply; the exchange is over.
    Respond(Reply),
    /// Abandon the request without a reply; the exchange is over.
    Abort,
}

/// The text of an optional string.
pub open spec fn text_opt(o: Option<String>) -> Option<Seq<char>> {
    match o {
        Some(s) => Some(s@),
        None => None,
    }
}

/// Whether `action` sends a reply with this status and body.
pub open spec fn is_reply(action: Action, status: Status, body: BodyView) -> bool {
    action matches Action::Respond(r) && r.status == status && r.body@ == body
}

/// Whether `action` ends the exchange.
pub open spec fn is_final(action: Action) -> bool {
    action is Respond || action is Abort
}

/// The kind of event that answers `action`.
pub open spec fn awaited_after(action: Action) -> Awaiting {
    match action {
        Action::ReadSalt(_) => Awaiting::Salt,
        Action::FindUserByLogin { .. } => Awaiting::User,
        Action::FindUserByName { .. } => Awaiting::User,
        Action::FindUserById { .. } => Awaiting::User,
        Action::FindTokenByUser { .. } => Awaiting::Token,
        Action::FindTokenByValue { .. } => Awaiting::Token,
        Action::InsertUser { .. } => Awaiting::Write,
        Action::UpdateUser { .. } => Awaiting::Write,
        Action::InsertToken { .. } => Awaiting::Write,
        Action::UpdateToken { .. } => Awaiting::Write,
        Action::DeleteToken { .. } => Awaiting::Write,
        Action::Respond(_) => Awaiting::Nothing,
        Action::Abort => Awaiting::Nothing,
    }
}

/// A reply with an empty body.
pub fn empty_reply(status: Status) -> (res: Action)
    ensures
        is_reply(res, status, BodyView::Empty),
{
    Action::Respond(Reply { status, body: Body::Empty })
}

/// A reply whose body is the given text.
pub fn text_reply(status: Status, text: &str) -> (res: Action)
    ensures
        is_reply(res, status, BodyView::Text(text@)),
{
    Action::Respond(Reply { status, body: Body::Text(text.to_owned()) })
}

} // verus!
