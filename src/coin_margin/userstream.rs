use vstd::prelude::*;

pub use super::ws_model::{ExecutionType, WorkingType};

verus! {

/// Endpoint of the listen-key lifecycle: POST starts a stream, PUT keeps
/// it alive, DELETE closes it.
pub const USER_DATA_STREAM: &'static str = "/dapi/v1/listenKey";

} // verus!
