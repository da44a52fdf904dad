//! The error types of the pipeline, and the names of the fields they point at.

use vstd::prelude::*;

use crate::channel::Channel;

verus! {

/// The fields of the event records.
#[derive(Clone, Copy, Debug, PartialEq, Eq, Structural)]
pub enum Field {
    MarketId,
    Side,
    MarketOrderId,
    UserAddress,
    Maker,
    CustodianId,
    EventType,
    Size,
    Price,
    Time,
    BaseAccountAddress,
    BaseModuleName,
    BaseStructName,
    BaseNameGeneric,
    QuoteAccountAddress,
    QuoteModuleName,
    QuoteStructName,
    LotSize,
    TickSize,
    MinSize,
    UnderwriterId,
}

impl Field {
    /// The name of the field as records spell it.
    pub open spec fn spec_name(self) -> Seq<char> {
        match self {
            Field::MarketId => "market_id"@,
            Field::Side => "side"@,
            Field::MarketOrderId => "market_order_id"@,
            Field::UserAddress => "user_address"@,
            Field::Maker => "maker"@,
            Field::CustodianId => "custodian_id"@,
            Field::EventType => "event_type"@,
            Field::Size => "size"@,
            Field::Price => "price"@,
            Field::Time => "time"@,
            Field::BaseAccountAddress => "base_account_address"@,
            Field::BaseModuleName => "base_module_name"@,
            Field::BaseStructName => "base_struct_name"@,
            Field::BaseNameGeneric => "base_name_generic"@,
            Field::QuoteAccountAddress => "quote_account_address"@,
            Field::QuoteModuleName => "quote_module_name"@,
            Field::QuoteStructName => "quote_struct_name"@,
            Field::LotSize => "lot_size"@,
            Field::TickSize => "tick_size"@,
            Field::MinSize => "min_size"@,
            Field::UnderwriterId => "underwriter_id"@,
        }
    }

    /// The name of the field as records spell it.
    pub fn name(self) -> (r: &'static str)
        ensures
            r@ == self.spec_name(),
    {
        match self {
            Field::MarketId => "market_id",
            Field::Side => "side",
            Field::MarketOrderId => "market_order_id",
            Field::UserAddress => "user_address",
            Field::Maker => "maker",
            Field::CustodianId => "custodian_id",
            Field::EventType => "event_type",
            Field::Size => "size",
            Field::Price => "price",
            Field::Time => "time",
            Field::BaseAccountAddress => "base_account_address",
            Field::BaseModuleName => "base_module_name",
            Field::BaseStructName => "base_struct_name",
            Field::BaseNameGeneric => "base_name_generic",
            Field::QuoteAccountAddress => "quote_account_address",
            Field::QuoteModuleName => "quote_module_name",
            Field::QuoteStructName => "quote_struct_name",
            Field::LotSize => "lot_size",
            Field::TickSize => "tick_size",
            Field::MinSize => "min_size",
            Field::UnderwriterId => "underwriter_id",
        }
    }
}

/// A numeric field that the fixed-point domain cannot hold: negative,
/// fractional, or wider than 64 unsigned bits.
#[derive(Clone, Copy, Debug, PartialEq, Eq, Structural)]
pub struct ConversionError {
    /// The field that failed.
    pub field: Field,
}

/// Why the markets could not be loaded. Loading happens once, at startup,
/// and a failure ends the startup.
#[derive(Clone, Copy, Debug, PartialEq, Eq, Structural)]
pub enum StoreError {
    /// The store could not be reached.
    Unreachable,
    /// The store refused or failed the query.
    Query,
    /// The market id of the row at this position is outside the fixed-point
    /// domain.
    MarketId { row: usize },
}

/// A channel that the broker did not let the pipeline subscribe to. The
/// startup ends on it: a pipeline that misses a channel loses data unseen.
#[derive(Clone, Copy, Debug, PartialEq, Eq, Structural)]
pub struct SubscriptionError {
    /// The channel whose subscription failed.
    pub channel: Channel,
}

/// Why a payload was dropped. Each failure costs the one message and
/// nothing else.
#[derive(Clone, Copy, Debug, PartialEq, Eq, Structural)]
pub enum DecodeError {
    /// The channel name is not a channel kind, a colon and a market.
    Channel,
    /// The payload is not a record.
    Payload,
    /// A field is absent or not of the form that its kind of record asks for.
    Field { field: Field },
    /// A numeric field is outside the fixed-point domain.
    ConversionError { field: Field },
    /// The record names another market than the channel it came on.
    Inconsistent,
}

/// What a consumer of the bus is told in place of an update.
#[derive(Clone, Copy, Debug, PartialEq, Eq, Structural)]
pub enum BusError {
    /// The consumer fell behind and this many of the oldest updates it had
    /// not read were overwritten. Delivery goes on with the oldest that is
    /// left.
    Lagged { skipped: u64 },
    /// The bus is shut down and the consumer has read all there was.
    Closed,
}

} // verus!
