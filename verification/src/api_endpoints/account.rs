//! Endpoints that change an account.

pub mod edit;
