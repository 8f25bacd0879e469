use vstd::prelude::*;

verus! {

/// The kind of response asked for when placing an order.
#[allow(non_camel_case_types, clippy::upper_case_acronyms)]
#[derive(Debug, Clone, Copy, PartialEq, Eq, Structural)]
pub enum NewOrderRespType {
    ACK,
    RESULT,
}

impl NewOrderRespType {
    /// The name of the value on the wire.
    pub open spec fn wire_spec(&self) -> Seq<char> {
        match self {
            NewOrderRespType::ACK => "ACK"@,
            NewOrderRespType::RESULT => "RESULT"@,
        }
    }

    /// The name of the value on the wire, as a query parameter takes it.
    pub fn wire_name(&self) -> (r: &'static str)
        ensures
            r@ == self.wire_spec(),
    {
        match self {
            NewOrderRespType::ACK => "ACK",
            NewOrderRespType::RESULT => "RESULT",
        }
    }
}
} // verus!
