//! Types and queries of the coin-margined futures API.
pub mod account;
pub mod market;
pub mod rest_model;
pub mod userstream;
pub mod ws_model;
