use vstd::prelude::*;
use vstd::string::StringExecFns;

use crate::codec::{Param, ParamValue};

verus! {

/// Endpoint of the funding rate history.
pub const FUNDING_RATE: &'static str = "/dapi/v1/fundingRate";

pub open spec fn param_is(p: Param, key: Seq<char>, value: Option<ParamValue>) -> bool {
    p.key@ == key && p.value == value
}

pub open spec fn unsigned_opt(o: Option<u64>) -> Option<ParamValue> {
    match o {
        Some(n) => Some(ParamValue::Unsigned(n)),
        None => None,
    }
}

fn param(key: &str, value: Option<ParamValue>) -> (p: Param)
    ensures
        param_is(p, key@, value),
{
    Param { key: String::from_str(key), value }
}

fn unsigned_param(o: Option<u64>) -> (r: Option<ParamValue>)
    ensures
        r == unsigned_opt(o),
{
    match o {
        Some(n) => Some(ParamValue::Unsigned(n)),
        None => None,
    }
}

/// The query of a funding rate history request: `startTime`, `endTime`
/// (each left out when absent), `limit` and `symbol`, in that order.
pub fn funding_rate_params(symbol: String, start_time: Option<u64>, end_time: Option<u64>, limit: u16) -> (r: Vec<
    Param,
>)
    ensures
        r@.len() == 4,
        param_is(r@[0], "startTime"@, unsigned_opt(start_time)),
        param_is(r@[1], "endTime"@, unsigned_opt(end_time)),
        param_is(r@[2], "limit"@, Some(ParamValue::Unsigned(limit as u64))),
        r@[3].key@ == "symbol"@,
        r@[3].value matches Some(ParamValue::Text(s)) && s@ == symbol@,
{
    let mut r: Vec<Param> = Vec::new();
    r.push(param("startTime", unsigned_param(start_time)));
    r.push(param("endTime", unsigned_param(end_time)));
    r.push(param("limit", Some(ParamValue::Unsigned(limit as u64))));
    r.push(Param { key: String::from_str("symbol"), value: Some(ParamValue::Text(symbol)) });
    r
}

} // verus!
