use vstd::prelude::*;

verus! {

/// Trading status of a contract.
#[derive(Debug, Clone, Copy, PartialEq, Eq, Structural)]
pub enum ContractStatus {
    PendingTrading,
    Trading,
    PreDelivering,
    Delivering,
    Delivered,
}

impl ContractStatus {
    /// The name of the value on the wire.
    pub open spec fn wire_spec(&self) -> Seq<char> {
        match self {
            ContractStatus::PendingTrading => "PENDING_TRADING"@,
            ContractStatus::Trading => "TRADING"@,
            ContractStatus::PreDelivering => "PRE_DELIVERING"@,
            ContractStatus::Delivering => "DELIVERING"@,
            ContractStatus::Delivered => "DELIVERED"@,
        }
    }

    /// The name of the value on the wire, as a query parameter takes it.
    pub fn wire_name(&self) -> (r: &'static str)
        ensures
            r@ == self.wire_spec(),
    {
        match self {
            ContractStatus::PendingTrading => "PENDING_TRADING",
            ContractStatus::Trading => "TRADING",
            ContractStatus::PreDelivering => "PRE_DELIVERING",
            ContractStatus::Delivering => "DELIVERING",
            ContractStatus::Delivered => "DELIVERED",
        }
    }
}

/// Kind of contract.
#[derive(Debug, Clone, Copy, PartialEq, Eq, Structural)]
pub enum ContractType {
    Perpetual,
    CurrentMonth,
    NextMonth,
    CurrentQuarter,
    NextQuarter,
    NextQuarterDelivery,
    CurrentQuarterDelivery,
    PerpetualDelivery,
    Empty,
}

impl ContractType {
    /// The name of the value on the wire.
    pub open spec fn wire_spec(&self) -> Seq<char> {
        match self {
            ContractType::Perpetual => "PERPETUAL"@,
            ContractType::CurrentMonth => "CURRENT_MONTH"@,
            ContractType::NextMonth => "NEXT_MONTH"@,
            ContractType::CurrentQuarter => "CURRENT_QUARTER"@,
            ContractType::NextQuarter => "NEXT_QUARTER"@,
            ContractType::NextQuarterDelivery => "NEXT_QUARTER DELIVERING"@,
            ContractType::CurrentQuarterDelivery => "CURRENT_QUARTER DELIVERING"@,
            ContractType::PerpetualDelivery => "PERPETUAL DELIVERING"@,
            ContractType::Empty => ""@,
        }
    }

    /// The name of the value on the wire, as a query parameter takes it.
    pub fn wire_name(&self) -> (r: &'static str)
        ensures
            r@ == self.wire_spec(),
    {
        match self {
            ContractType::Perpetual => "PERPETUAL",
            ContractType::CurrentMonth => "CURRENT_MONTH",
            ContractType::NextMonth => "NEXT_MONTH",
            ContractType::CurrentQuarter => "CURRENT_QUARTER",
            ContractType::NextQuarter => "NEXT_QUARTER",
            ContractType::NextQuarterDelivery => "NEXT_QUARTER DELIVERING",
            ContractType::CurrentQuarterDelivery => "CURRENT_QUARTER DELIVERING",
            ContractType::PerpetualDelivery => "PERPETUAL DELIVERING",
            ContractType::Empty => "",
        }
    }
}
} // verus!
