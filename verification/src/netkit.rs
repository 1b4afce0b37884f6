//! What the three shop clients share: cookies, tokens, errors and where
//! things are kept.
pub mod cookies;
pub mod jar;
pub mod error;
pub mod jwt;
pub mod paths;
pub mod secrets;
pub mod run;
pub mod http;
