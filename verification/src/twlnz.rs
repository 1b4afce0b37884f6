//! The Warehouse, New Zealand: the parts of the client that decide rather
//! than fetch.
pub mod endpoints;
pub mod session;
pub mod domain;
pub mod listing;
pub mod error;
pub mod stores;
pub mod wire;
pub mod cart;
pub mod product;
pub mod extract;
pub mod http;
pub mod auth;
pub mod client;
