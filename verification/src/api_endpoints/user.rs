//! Endpoints that report on an account.

pub mod stats;
