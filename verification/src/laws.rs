//! Properties that span several endpoints.

use vstd::prelude::*;
use crate::api_endpoints::account::edit::{edit_next, edit_when_valid, EditData, EditState};
use crate::api_endpoints::login::{login_next, LoginState};
use crate::api_endpoints::logout::{logout_next, LogoutState};
use crate::api_endpoints::refresh::{refresh_next, RefreshState};
use crate::api_endpoints::signup::{signup_next, SignupState};
use crate::api_endpoints::user::stats::{stats_next, StatsState};
use crate::exchange::{is_reply, text_opt, Action, BodyView, Event, Status, TokenRecord, UserId, UserRecord};
use crate::fresh::TOKEN_LIFETIME_MS;
use crate::hash::salted_text;

verus! {

/// A session token is stored under the very text under which it is looked up
/// when it is presented again: login and signup (storing a token they issue)
/// and refresh (storing its replacement) use the same text as logout,
/// refresh, statistics and edit (looking up a presented token), namely the
/// base64 of the token's digest salted with the token salt.
pub proof fn law_tokens_stored_where_looked_up(
    user_id: UserId,
    token: String,
    salt: String,
    old_value: String,
    body: Option<EditData>,
    now: i64,
    fresh: String,
)
    requires
        now <= i64::MAX - TOKEN_LIFETIME_MS,
    ensures
        forall|n: LoginState, a: Action|
            #[trigger] login_next(LoginState::AwaitTokenSalt { user_id, token }, Event::Salt(salt), fresh, n, a)
                ==> (a matches Action::InsertToken { value, .. } && value@ == salted_text(token@, salt@)),
        forall|n: SignupState, a: Action|
            #[trigger] signup_next(SignupState::AwaitTokenSalt { user_id, token }, Event::Salt(salt), now, fresh, n, a)
                ==> (a matches Action::InsertToken { value, .. } && value@ == salted_text(token@, salt@)),
        forall|n: RefreshState, a: Action|
            #[trigger] refresh_next(
                RefreshState::AwaitNewSalt { value: old_value, new_token: token },
                Event::Salt(salt),
                now,
                fresh,
                n,
                a,
            ) ==> (a matches Action::UpdateToken { new_value, .. } && new_value@ == salted_text(token@, salt@)),
        forall|n: LogoutState, a: Action|
            #[trigger] logout_next(LogoutState::AwaitSalt { token }, Event::Salt(salt), n, a)
                ==> (a matches Action::FindTokenByValue { value } && value@ == salted_text(token@, salt@)),
        forall|n: RefreshState, a: Action|
            #[trigger] refresh_next(RefreshState::AwaitSalt { token }, Event::Salt(salt), now, fresh, n, a)
                ==> (a matches Action::FindTokenByValue { value } && value@ == salted_text(token@, salt@)),
        forall|n: StatsState, a: Action|
            #[trigger] stats_next(StatsState::AwaitSalt { token }, Event::Salt(salt), now, n, a)
                ==> (a matches Action::FindTokenByValue { value } && value@ == salted_text(token@, salt@)),
        forall|n: EditState, a: Action|
            #[trigger] edit_next(EditState::AwaitSalt { token, body }, Event::Salt(salt), now, n, a)
                ==> (a matches Action::FindTokenByValue { value } && value@ == salted_text(token@, salt@)),
{
}

/// A password is stored under the very text under which a login looks it
/// up: signup (creating the user) and edit (changing the password) store,
/// and login looks up, the base64 of the password's digest salted with the
/// user salt, next to the user name as given.
pub proof fn law_passwords_stored_where_looked_up(
    username: String,
    password: String,
    salt: String,
    id: UserId,
    new_username: Option<String>,
    now: i64,
    fresh: String,
)
    ensures
        forall|n: SignupState, a: Action|
            #[trigger] signup_next(SignupState::AwaitUserSalt { username, password }, Event::Salt(salt), now, fresh, n, a)
                ==> (a matches Action::InsertUser { username: u, password: p }
                    && u@ == username@ && p@ == salted_text(password@, salt@)),
        forall|n: LoginState, a: Action|
            #[trigger] login_next(LoginState::AwaitUserSalt { username, password }, Event::Salt(salt), fresh, n, a)
                ==> (a matches Action::FindUserByLogin { username: u, password: p }
                    && u@ == username@ && p@ == salted_text(password@, salt@)),
        forall|n: EditState, a: Action|
            #[trigger] edit_next(
                EditState::AwaitUserSalt { user_id: Some(id), username: new_username, password },
                Event::Salt(salt),
                now,
                n,
                a,
            ) ==> (a matches Action::UpdateUser { username: u, password: p, .. }
                && text_opt(u) == text_opt(new_username)
                && text_opt(p) == Some(salted_text(password@, salt@))),
{
}

/// Logout, refresh, statistics and edit answer a presented token that is not
/// stored with 401 and an empty body, and end there.
pub proof fn law_unknown_tokens_are_unauthorized(value: String, body: Option<EditData>, now: i64, fresh: String)
    ensures
        forall|n: LogoutState, a: Action|
            #[trigger] logout_next(LogoutState::AwaitToken { value }, Event::Token(None), n, a)
                ==> n is Done && is_reply(a, Status::Unauthorized, BodyView::Empty),
        forall|n: RefreshState, a: Action|
            #[trigger] refresh_next(RefreshState::AwaitToken { value }, Event::Token(None), now, fresh, n, a)
                ==> n is Done && is_reply(a, Status::Unauthorized, BodyView::Empty),
        forall|n: StatsState, a: Action|
            #[trigger] stats_next(StatsState::AwaitToken { value }, Event::Token(None), now, n, a)
                ==> n is Done && is_reply(a, Status::Unauthorized, BodyView::Empty),
        forall|n: EditState, a: Action|
            #[trigger] edit_next(EditState::AwaitToken { value, body }, Event::Token(None), now, n, a)
                ==> n is Done && is_reply(a, Status::Unauthorized, BodyView::Empty),
{
}

/// Refresh, statistics and edit, at time `now`, remove a stored token exactly
/// when its expiry is before `now`, and then answer 401 with an empty body; a
/// token whose expiry is not before `now` is used and kept.
pub proof fn law_expired_tokens_are_removed(
    value: String,
    body: Option<EditData>,
    record: TokenRecord,
    valid_until: i64,
    now: i64,
    fresh: String,
)
    requires
        record.valid_until == Some(valid_until),
    ensures
        forall|n: RefreshState, a: Action|
            #[trigger] refresh_next(RefreshState::AwaitToken { value }, Event::Token(Some(record)), now, fresh, n, a)
                ==> if valid_until < now {
                    n is AwaitDelete && (a matches Action::DeleteToken { value: v } && v@ == value@)
                } else {
                    n matches RefreshState::AwaitNewSalt { new_token, .. } && new_token@ == fresh@
                },
        forall|n: StatsState, a: Action|
            #[trigger] stats_next(StatsState::AwaitToken { value }, Event::Token(Some(record)), now, n, a)
                ==> if valid_until < now {
                    n is AwaitDelete && (a matches Action::DeleteToken { value: v } && v@ == value@)
                } else {
                    !(a is DeleteToken) && !(n is AwaitDelete)
                },
        forall|n: EditState, a: Action|
            #[trigger] edit_next(EditState::AwaitToken { value, body }, Event::Token(Some(record)), now, n, a)
                ==> if valid_until < now {
                    n is AwaitDelete && (a matches Action::DeleteToken { value: v } && v@ == value@)
                } else {
                    edit_when_valid(body, record.user_id, n, a)
                },
        forall|n: RefreshState, a: Action|
            #[trigger] refresh_next(RefreshState::AwaitDelete, Event::Written, now, fresh, n, a)
                ==> n is Done && is_reply(a, Status::Unauthorized, BodyView::Empty),
        forall|n: StatsState, a: Action|
            #[trigger] stats_next(StatsState::AwaitDelete, Event::Written, now, n, a)
                ==> n is Done && is_reply(a, Status::Unauthorized, BodyView::Empty),
        forall|n: EditState, a: Action|
            #[trigger] edit_next(EditState::AwaitDelete, Event::Written, now, n, a)
                ==> n is Done && is_reply(a, Status::Unauthorized, BodyView::Empty),
{
}

/// Signup and refresh, at time `now`, give the token they issue an expiry
/// five minutes (300000 ms) after `now`, where that fits in an `i64`.
pub proof fn law_issued_tokens_last_five_minutes(
    user_id: UserId,
    token: String,
    salt: String,
    old_value: String,
    now: i64,
    fresh: String,
)
    requires
        now <= i64::MAX - TOKEN_LIFETIME_MS,
    ensures
        forall|n: SignupState, a: Action|
            #[trigger] signup_next(SignupState::AwaitTokenSalt { user_id, token }, Event::Salt(salt), now, fresh, n, a)
                ==> (a matches Action::InsertToken { valid_until, .. }
                    && valid_until == Some((now + TOKEN_LIFETIME_MS) as i64)),
        forall|n: RefreshState, a: Action|
            #[trigger] refresh_next(
                RefreshState::AwaitNewSalt { value: old_value, new_token: token },
                Event::Salt(salt),
                now,
                fresh,
                n,
                a,
            ) ==> (a matches Action::UpdateToken { valid_until, .. } && valid_until == now + TOKEN_LIFETIME_MS),
{
}

/// A token that signup or refresh issues at `issued` is accepted by refresh,
/// statistics and edit at any later time `now` up to five minutes after
/// `issued`: the stored expiry is not before `now`, so the token is neither
/// removed nor refused.
pub proof fn law_fresh_tokens_accepted_within_lifetime(
    value: String,
    body: Option<EditData>,
    owner: Option<UserId>,
    issued: i64,
    now: i64,
    fresh: String,
)
    requires
        issued <= i64::MAX - TOKEN_LIFETIME_MS,
        now <= issued + TOKEN_LIFETIME_MS,
    ensures
        ({
            let record = TokenRecord { user_id: owner, valid_until: Some((issued + TOKEN_LIFETIME_MS) as i64) };
            &&& forall|n: RefreshState, a: Action|
                #[trigger] refresh_next(RefreshState::AwaitToken { value }, Event::Token(Some(record)), now, fresh, n, a)
                    ==> (n matches RefreshState::AwaitNewSalt { new_token, .. } && new_token@ == fresh@)
            &&& forall|n: StatsState, a: Action|
                #[trigger] stats_next(StatsState::AwaitToken { value }, Event::Token(Some(record)), now, n, a)
                    ==> match owner {
                        Some(id) => n is AwaitUser && a == Action::FindUserById { id },
                        None => n is Done && a is Abort,
                    }
            &&& forall|n: EditState, a: Action|
                #[trigger] edit_next(EditState::AwaitToken { value, body }, Event::Token(Some(record)), now, n, a)
                    ==> edit_when_valid(body, owner, n, a)
        }),
{
}

/// A token that login issues is stored without an expiry, while refresh,
/// statistics and edit abandon the request when the stored token they find
/// has no expiry: a session opened by login cannot be refreshed, queried or
/// used to edit the account.
pub proof fn law_login_tokens_carry_no_expiry(
    user_id: UserId,
    token: String,
    salt: String,
    value: String,
    body: Option<EditData>,
    owner: Option<UserId>,
    now: i64,
    fresh: String,
)
    ensures
        forall|n: LoginState, a: Action|
            #[trigger] login_next(LoginState::AwaitTokenSalt { user_id, token }, Event::Salt(salt), fresh, n, a)
                ==> (a matches Action::InsertToken { valid_until, .. } && valid_until is None),
        forall|n: RefreshState, a: Action|
            #[trigger] refresh_next(
                RefreshState::AwaitToken { value },
                Event::Token(Some(TokenRecord { user_id: owner, valid_until: None })),
                now,
                fresh,
                n,
                a,
            ) ==> n is Done && a is Abort,
        forall|n: StatsState, a: Action|
            #[trigger] stats_next(
                StatsState::AwaitToken { value },
                Event::Token(Some(TokenRecord { user_id: owner, valid_until: None })),
                now,
                n,
                a,
            ) ==> n is Done && a is Abort,
        forall|n: EditState, a: Action|
            #[trigger] edit_next(
                EditState::AwaitToken { value, body },
                Event::Token(Some(TokenRecord { user_id: owner, valid_until: None })),
                now,
                n,
                a,
            ) ==> n is Done && a is Abort,
{
}

/// Expiry only moves forward with the clock: a stored token that refresh,
/// statistics or edit removes as expired at clock reading `earlier` is
/// removed at every later reading too, and one they keep as valid at `later`
/// is kept at every earlier reading.
pub proof fn law_expiry_is_monotone_in_the_clock(
    value: String,
    body: Option<EditData>,
    record: TokenRecord,
    earlier: i64,
    later: i64,
    fresh: String,
)
    requires
        earlier <= later,
        record.valid_until is Some,
    ensures
        forall|n1: RefreshState, a1: Action, n2: RefreshState, a2: Action|
            #![trigger refresh_next(RefreshState::AwaitToken { value }, Event::Token(Some(record)), earlier, fresh, n1, a1),
                refresh_next(RefreshState::AwaitToken { value }, Event::Token(Some(record)), later, fresh, n2, a2)]
            refresh_next(RefreshState::AwaitToken { value }, Event::Token(Some(record)), earlier, fresh, n1, a1)
                && refresh_next(RefreshState::AwaitToken { value }, Event::Token(Some(record)), later, fresh, n2, a2)
                ==> (a1 is DeleteToken ==> a2 is DeleteToken),
        forall|n1: StatsState, a1: Action, n2: StatsState, a2: Action|
            #![trigger stats_next(StatsState::AwaitToken { value }, Event::Token(Some(record)), earlier, n1, a1),
                stats_next(StatsState::AwaitToken { value }, Event::Token(Some(record)), later, n2, a2)]
            stats_next(StatsState::AwaitToken { value }, Event::Token(Some(record)), earlier, n1, a1)
                && stats_next(StatsState::AwaitToken { value }, Event::Token(Some(record)), later, n2, a2)
                ==> (a1 is DeleteToken ==> a2 is DeleteToken),
        forall|n1: EditState, a1: Action, n2: EditState, a2: Action|
            #![trigger edit_next(EditState::AwaitToken { value, body }, Event::Token(Some(record)), earlier, n1, a1),
                edit_next(EditState::AwaitToken { value, body }, Event::Token(Some(record)), later, n2, a2)]
            edit_next(EditState::AwaitToken { value, body }, Event::Token(Some(record)), earlier, n1, a1)
                && edit_next(EditState::AwaitToken { value, body }, Event::Token(Some(record)), later, n2, a2)
                ==> (a1 is DeleteToken ==> a2 is DeleteToken),
{
}

/// Tokens issued at later clock readings expire later: two signups, or two
/// refreshes, dated at `earlier < later` store expiries in the same order,
/// exactly `later - earlier` milliseconds apart.
pub proof fn law_expiry_follows_the_clock(
    user_id: UserId,
    token: String,
    salt: String,
    old_value: String,
    earlier: i64,
    later: i64,
    fresh: String,
)
    requires
        earlier < later,
        later <= i64::MAX - TOKEN_LIFETIME_MS,
    ensures
        forall|n1: SignupState, a1: Action, n2: SignupState, a2: Action|
            #![trigger signup_next(SignupState::AwaitTokenSalt { user_id, token }, Event::Salt(salt), earlier, fresh, n1, a1),
                signup_next(SignupState::AwaitTokenSalt { user_id, token }, Event::Salt(salt), later, fresh, n2, a2)]
            signup_next(SignupState::AwaitTokenSalt { user_id, token }, Event::Salt(salt), earlier, fresh, n1, a1)
                && signup_next(SignupState::AwaitTokenSalt { user_id, token }, Event::Salt(salt), later, fresh, n2, a2)
                ==> (a1 matches Action::InsertToken { valid_until: Some(v1), .. }
                    && a2 matches Action::InsertToken { valid_until: Some(v2), .. }
                    && v2 - v1 == later - earlier),
        forall|n1: RefreshState, a1: Action, n2: RefreshState, a2: Action|
            #![trigger refresh_next(RefreshState::AwaitNewSalt { value: old_value, new_token: token }, Event::Salt(salt), earlier, fresh, n1, a1),
                refresh_next(RefreshState::AwaitNewSalt { value: old_value, new_token: token }, Event::Salt(salt), later, fresh, n2, a2)]
            refresh_next(RefreshState::AwaitNewSalt { value: old_value, new_token: token }, Event::Salt(salt), earlier, fresh, n1, a1)
                && refresh_next(RefreshState::AwaitNewSalt { value: old_value, new_token: token }, Event::Salt(salt), later, fresh, n2, a2)
                ==> (a1 matches Action::UpdateToken { valid_until: v1, .. }
                    && a2 matches Action::UpdateToken { valid_until: v2, .. }
                    && v2 - v1 == later - earlier),
{
}

/// The token that login, signup and refresh issue is the one drawn for that
/// step, and it is what they reply with once it is stored; so two draws that
/// differ give two sessions with different tokens.
pub proof fn law_issued_token_is_the_drawn_one(
    user_id: UserId,
    user: UserRecord,
    record: TokenRecord,
    value: String,
    now: i64,
    fresh1: String,
    fresh2: String,
)
    requires
        user.id == Some(user_id),
        record.valid_until matches Some(v) && v >= now,
        fresh1@ != fresh2@,
    ensures
        forall|n1: LoginState, a1: Action, n2: LoginState, a2: Action|
            #![trigger login_next(LoginState::AwaitTokenOfUser { user_id }, Event::Token(None), fresh1, n1, a1),
                login_next(LoginState::AwaitTokenOfUser { user_id }, Event::Token(None), fresh2, n2, a2)]
            login_next(LoginState::AwaitTokenOfUser { user_id }, Event::Token(None), fresh1, n1, a1)
                && login_next(LoginState::AwaitTokenOfUser { user_id }, Event::Token(None), fresh2, n2, a2)
                ==> ({
                    &&& n1 matches LoginState::AwaitTokenSalt { token: t1, .. }
                    &&& t1@ == fresh1@
                    &&& n2 matches LoginState::AwaitTokenSalt { token: t2, .. }
                    &&& t2@ == fresh2@
                    &&& t1@ != t2@
                }),
        forall|n1: SignupState, a1: Action, n2: SignupState, a2: Action|
            #![trigger signup_next(SignupState::AwaitNewUser, Event::User(Some(user)), now, fresh1, n1, a1),
                signup_next(SignupState::AwaitNewUser, Event::User(Some(user)), now, fresh2, n2, a2)]
            signup_next(SignupState::AwaitNewUser, Event::User(Some(user)), now, fresh1, n1, a1)
                && signup_next(SignupState::AwaitNewUser, Event::User(Some(user)), now, fresh2, n2, a2)
                ==> ({
                    &&& n1 matches SignupState::AwaitTokenSalt { token: t1, .. }
                    &&& t1@ == fresh1@
                    &&& n2 matches SignupState::AwaitTokenSalt { token: t2, .. }
                    &&& t2@ == fresh2@
                    &&& t1@ != t2@
                }),
        forall|n1: RefreshState, a1: Action, n2: RefreshState, a2: Action|
            #![trigger refresh_next(RefreshState::AwaitToken { value }, Event::Token(Some(record)), now, fresh1, n1, a1),
                refresh_next(RefreshState::AwaitToken { value }, Event::Token(Some(record)), now, fresh2, n2, a2)]
            refresh_next(RefreshState::AwaitToken { value }, Event::Token(Some(record)), now, fresh1, n1, a1)
                && refresh_next(RefreshState::AwaitToken { value }, Event::Token(Some(record)), now, fresh2, n2, a2)
                ==> ({
                    &&& n1 matches RefreshState::AwaitNewSalt { new_token: t1, .. }
                    &&& t1@ == fresh1@
                    &&& n2 matches RefreshState::AwaitNewSalt { new_token: t2, .. }
                    &&& t2@ == fresh2@
                    &&& t1@ != t2@
                }),
        forall|token: String, f: String, n: LoginState, a: Action|
            #[trigger] login_next(LoginState::AwaitInsert { token }, Event::Written, f, n, a)
                ==> is_reply(a, Status::Success, BodyView::Text(token@)),
        forall|token: String, f: String, n: SignupState, a: Action|
            #[trigger] signup_next(SignupState::AwaitInsertToken { token }, Event::Written, now, f, n, a)
                ==> is_reply(a, Status::Success, BodyView::Text(token@)),
        forall|token: String, f: String, n: RefreshState, a: Action|
            #[trigger] refresh_next(RefreshState::AwaitUpdate { new_token: token }, Event::Written, now, f, n, a)
                ==> is_reply(a, Status::Success, BodyView::Text(token@)),
{
}

} // verus!
