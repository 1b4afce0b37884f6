//! Woolworths, New Zealand: the parts of the client that decide rather than
//! fetch.
pub mod domain;
pub mod gql;
pub mod endpoints;
pub mod session;
pub mod auth;
pub mod wire;
pub mod error;
