//! Where a request goes: to an endpoint below `/api/`, or to a page of the
//! public directory.

use vstd::prelude::*;
use crate::api_endpoints::{endpoint_for, endpoint_table, get_endpoints, route_view, Endpoint, Route};
use crate::exchange::Method;
use crate::text::{ends_with, has_prefix, has_suffix, same_text, starts_with};

verus! {

/// Where a request goes.
pub enum Target {
    /// To this endpoint.
    Api(Endpoint),
    /// To the page in this file.
    File(String),
    /// Nowhere: the reply is 404.
    NotFound,
}

/// The first entry of `table` with this method and path, if any.
pub open spec fn table_lookup(
    table: Seq<(Method, Seq<char>, Endpoint)>,
    method: Method,
    path: Seq<char>,
) -> Option<Endpoint>
    decreases table.len(),
{
    if table.len() == 0 {
        None
    } else if table[0].0 == method && table[0].1 == path {
        Some(table[0].2)
    } else {
        table_lookup(table.drop_first(), method, path)
    }
}

/// Finds the endpoint that `table` gives for `method` and `path`.
pub fn find_endpoint(table: &Vec<Route>, method: Method, path: &str) -> (res: Option<Endpoint>)
    ensures
        res == table_lookup(table@.map_values(|r: Route| route_view(r)), method, path@),
{
    let ghost rows = table@.map_values(|r: Route| route_view(r));
    let mut i: usize = 0;
    assert(rows.skip(0) =~= rows);
    while i < table.len()
        invariant
            i <= table@.len(),
            rows == table@.map_values(|r: Route| route_view(r)),
            table_lookup(rows, method, path@) == table_lookup(rows.skip(i as int), method, path@),
        decreases table@.len() - i,
    {
        let entry = &table[i];
        assert(rows.skip(i as int)[0] == route_view(table@[i as int]));
        assert(rows.skip(i as int).drop_first() =~= rows.skip(i + 1));
        if entry.method == method && same_text(entry.path, path) {
            return Some(entry.endpoint);
        }
        i = i + 1;
    }
    None
}

/// The file that serves a path outside `/api/`: the path below
/// `./src/public`, with `.html` appended unless it already ends so.
pub open spec fn public_file(path: Seq<char>) -> Seq<char> {
    let file = "./src/public"@ + path;
    if ends_with(file, ".html"@) {
        file
    } else {
        file + ".html"@
    }
}

/// Where a request for `method` and `path` goes.
pub open spec fn target_of(method: Method, path: Seq<char>, target: Target) -> bool {
    if starts_with(path, "/api/"@) {
        match endpoint_for(method, path.skip(5)) {
            Some(endpoint) => target == Target::Api(endpoint),
            None => target is NotFound,
        }
    } else {
        target matches Target::File(file) && file@ == public_file(path)
    }
}

/// Decides where a request goes: below `/api/`, to the endpoint that the
/// routing table gives for the method and the rest of the path (or nowhere);
/// elsewhere, to a page of the public directory.
pub fn route_request(method: Method, path: &str) -> (res: Target)
    ensures
        target_of(method, path@, res),
{
    proof {
        reveal_strlit("/api/");
    }
    if has_prefix(path, "/api/") {
        let table = get_endpoints();
        let rest = path.substring_char(5, path.unicode_len());
        let found = find_endpoint(&table, method, rest);
        proof {
            lemma_table_lookup_is_endpoint_for(method, rest@);
        }
        match found {
            Some(endpoint) => Target::Api(endpoint),
            None => Target::NotFound,
        }
    } else {
        let mut file = "./src/public".to_owned();
        file.append(path);
        if !has_suffix(file.as_str(), ".html") {
            file.append(".html");
        }
        Target::File(file)
    }
}

/// Looking a method and path up in the routing table gives the endpoint that
/// serves them.
pub proof fn lemma_table_lookup_is_endpoint_for(method: Method, path: Seq<char>)
    ensures
        table_lookup(endpoint_table(), method, path) == endpoint_for(method, path),
{
    reveal_with_fuel(table_lookup, 10);
    reveal_strlit("/account/edit");
    reveal_strlit("/stats");
    reveal_strlit("/statistics");
    reveal_strlit("/login");
    reveal_strlit("/signin");
    reveal_strlit("logout");
    reveal_strlit("signout");
    reveal_strlit("refresh");
    reveal_strlit("signup");
}

} // verus!
