//! Verified core of a small account and session service: salted password and
//! token hashing, the routing of requests, and the decisions of each endpoint,
//! written as state machines whose outside work (database, environment,
//! network) is carried out by the caller.

pub mod hash;
pub mod exchange;
pub mod fresh;
pub mod api_endpoints;
pub mod text;
pub mod routing;
pub mod laws;
