//! Kmart, in Australia and New Zealand: the parts of the client that decide
//! rather than fetch.
pub mod country;
pub mod vendor;
pub mod endpoints;
pub mod session;
pub mod domain;
pub mod wire;
pub mod catalog;
pub mod error;
pub mod auth;
pub mod gql;
