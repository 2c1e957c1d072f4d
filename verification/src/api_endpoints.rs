//! The endpoints of the service and the table that routes requests to them.

pub mod login;
pub mod logout;
pub mod refresh;
pub mod user;
pub mod account;
pub mod signup;

use vstd::prelude::*;
use crate::exchange::Method;

verus! {

/// The endpoints of the service.
#[derive(Clone, Copy, PartialEq, Eq, Structural, Debug)]
pub enum Endpoint {
    AccountEdit,
    UserStats,
    Login,
    Logout,
    Refresh,
    Signup,
}

/// One entry of the routing table: requests with this method and this path
/// (below `/api/`) go to this endpoint.
pub struct Route {
    pub method: Method,
    pub path: &'static str,
    pub endpoint: Endpoint,
}

/// The routing table, entry by entry, in the order in which it is built.
pub open spec fn endpoint_table() -> Seq<(Method, Seq<char>, Endpoint)> {
    seq![
        (Method::Post, "/account/edit"@, Endpoint::AccountEdit),
        (Method::Post, "/stats"@, Endpoint::UserStats),
        (Method::Post, "/statistics"@, Endpoint::UserStats),
        (Method::Post, "/login"@, Endpoint::Login),
        (Method::Post, "/signin"@, Endpoint::Login),
        (Method::Post, "logout"@, Endpoint::Logout),
        (Method::Post, "signout"@, Endpoint::Logout),
        (Method::Post, "refresh"@, Endpoint::Refresh),
        (Method::Post, "signup"@, Endpoint::Signup),
    ]
}

/// The endpoint that serves `method` and `path`, if any.
pub open spec fn endpoint_for(method: Method, path: Seq<char>) -> Option<Endpoint> {
    if method != Method::Post {
        None
    } else if path == "/account/edit"@ {
        Some(Endpoint::AccountEdit)
    } else if path == "/stats"@ || path == "/statistics"@ {
        Some(Endpoint::UserStats)
    } else if path == "/login"@ || path == "/signin"@ {
        Some(Endpoint::Login)
    } else if path == "logout"@ || path == "signout"@ {
        Some(Endpoint::Logout)
    } else if path == "refresh"@ {
        Some(Endpoint::Refresh)
    } else if path == "signup"@ {
        Some(Endpoint::Signup)
    } else {
        None
    }
}

/// No two entries of the routing table have the same method and path, so the
/// order in which it is built does not matter.
pub proof fn endpoint_table_keys_distinct()
    ensures
        forall|i: int, j: int|
            0 <= i < j < endpoint_table().len() ==> (#[trigger] endpoint_table()[i]).1
                != (#[trigger] endpoint_table()[j]).1,
{
    reveal_strlit("/account/edit");
    reveal_strlit("/stats");
    reveal_strlit("/statistics");
    reveal_strlit("/login");
    reveal_strlit("/signin");
    reveal_strlit("logout");
    reveal_strlit("signout");
    reveal_strlit("refresh");
    reveal_strlit("signup");
    let t = endpoint_table();
    assert forall|i: int, j: int| 0 <= i < j < t.len() implies (#[trigger] t[i]).1 != (#[trigger] t[j]).1 by {
        if t[i].1.len() == t[j].1.len() {
            assert(t[i].1[1] != t[j].1[1] || t[i].1[0] != t[j].1[0] || t[i].1[2] != t[j].1[2]);
        }
    }
}

pub open spec fn route_view(route: Route) -> (Method, Seq<char>, Endpoint) {
    (route.method, route.path@, route.endpoint)
}

/// The entries that route each of `paths` with `method` to `endpoint`.
pub open spec fn routes_for(method: Method, paths: Seq<&'static str>, endpoint: Endpoint) -> Seq<Route> {
    paths.map_values(|p: &'static str| Route { method, path: p, endpoint })
}

/// Appends an entry for each of `paths`, all with `method` and `endpoint`.
fn add_routes(table: &mut Vec<Route>, method: Method, paths: Vec<&'static str>, endpoint: Endpoint)
    ensures
        final(table)@ == old(table)@ + routes_for(method, paths@, endpoint),
{
    let mut k: usize = 0;
    while k < paths.len()
        invariant
            k <= paths@.len(),
            table@ == old(table)@ + routes_for(method, paths@.take(k as int), endpoint),
        decreases paths@.len() - k,
    {
        table.push(Route { method, path: paths[k], endpoint });
        k = k + 1;
        assert(routes_for(method, paths@.take(k as int), endpoint) =~= routes_for(
            method,
            paths@.take(k - 1),
            endpoint,
        ).push(Route { method, path: paths@[k - 1], endpoint }));
    }
    assert(paths@.take(k as int) =~= paths@);
}

/// Builds the routing table from the paths of each endpoint.
pub fn get_endpoints() -> (res: Vec<Route>)
    ensures
        res@.map_values(|r: Route| route_view(r)) == endpoint_table(),
{
    let mut table: Vec<Route> = Vec::new();
    add_routes(&mut table, account::edit::METHOD, account::edit::get_endpoints(), Endpoint::AccountEdit);
    add_routes(&mut table, user::stats::METHOD, user::stats::get_endpoints(), Endpoint::UserStats);
    add_routes(&mut table, login::METHOD, login::get_endpoints(), Endpoint::Login);
    add_routes(&mut table, logout::METHOD, logout::get_endpoints(), Endpoint::Logout);
    add_routes(&mut table, refresh::METHOD, refresh::get_endpoints(), Endpoint::Refresh);
    add_routes(&mut table, signup::METHOD, signup::get_endpoints(), Endpoint::Signup);
    assert(table@.map_values(|r: Route| route_view(r)) =~= endpoint_table());
    table
}

} // verus!
