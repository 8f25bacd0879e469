use vstd::prelude::*;

verus! {

/// Why an order update event was sent.
#[derive(Debug, Clone, Copy, PartialEq, Eq, Structural)]
pub enum ExecutionType {
    New,
    Canceled,
    Calculated,
    Expired,
    Trade,
    Amendment,
}

impl ExecutionType {
    /// The name of the value on the wire.
    pub open spec fn wire_spec(&self) -> Seq<char> {
        match self {
            ExecutionType::New => "NEW"@,
            ExecutionType::Canceled => "CANCELED"@,
            ExecutionType::Calculated => "CALCULATED"@,
            ExecutionType::Expired => "EXPIRED"@,
            ExecutionType::Trade => "TRADE"@,
            ExecutionType::Amendment => "AMENDMENT"@,
        }
    }

    /// The name of the value on the wire, as a query parameter takes it.
    pub fn wire_name(&self) -> (r: &'static str)
        ensures
            r@ == self.wire_spec(),
    {
        match self {
            ExecutionType::New => "NEW",
            ExecutionType::Canceled => "CANCELED",
            ExecutionType::Calculated => "CALCULATED",
            ExecutionType::Expired => "EXPIRED",
            ExecutionType::Trade => "TRADE",
            ExecutionType::Amendment => "AMENDMENT",
        }
    }
}

/// Which price triggers a stop order.
#[derive(Debug, Clone, Copy, PartialEq, Eq, Structural)]
pub enum WorkingType {
    ContractPrice,
    MarkPrice,
}

impl WorkingType {
    /// The name of the value on the wire.
    pub open spec fn wire_spec(&self) -> Seq<char> {
        match self {
            WorkingType::ContractPrice => "CONTRACT_PRICE"@,
            WorkingType::MarkPrice => "MARK_PRICE"@,
        }
    }

    /// The name of the value on the wire, as a query parameter takes it.
    pub fn wire_name(&self) -> (r: &'static str)
        ensures
            r@ == self.wire_spec(),
    {
        match self {
            WorkingType::ContractPrice => "CONTRACT_PRICE",
            WorkingType::MarkPrice => "MARK_PRICE",
        }
    }
}
} // verus!
