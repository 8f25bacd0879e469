//! Signed-request core for an exchange REST API: canonical query encoding,
//! keyed request signing, request preparation, and classification of
//! responses into typed results or a closed error taxonomy.
pub mod errors;
pub mod codec;
mod text;
pub mod signing;
pub mod response;
pub mod request;
pub mod client;
pub mod coin_margin;
