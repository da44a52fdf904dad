//! The event tables.

use vstd::prelude::*;
use vstd::std_specs::convert::FromSpecImpl;
use vstd::std_specs::convert::TryFromSpecImpl;

use crate::decimal::fixed_result;
use crate::decimal::to_fixed_u64;
use crate::decimal::to_fixed_units;
use crate::decimal::Decimal;
use crate::decimal::DecimalView;
use crate::error::ConversionError;
use crate::error::Field;
use crate::events;
use crate::events::CoinId;
use crate::events::Side;
use crate::types::Timestamp;

verus! {

/// A row of the market registration table.
#[derive(Debug)]
pub struct MarketRegistrationEvent {
    pub market_id: Decimal,
    pub time: Timestamp,
    pub base_account_address: Option<String>,
    pub base_module_name: Option<String>,
    pub base_struct_name: Option<String>,
    pub base_name_generic: Option<String>,
    pub quote_account_address: String,
    pub quote_module_name: String,
    pub quote_struct_name: String,
    pub lot_size: Decimal,
    pub tick_size: Decimal,
    pub min_size: Decimal,
    pub underwriter_id: Decimal,
}

/// A market registration as it is written to the table.
#[derive(Debug)]
pub struct NewMarketRegistrationEvent<'a> {
    pub market_id: Decimal,
    pub time: Timestamp,
    pub base_account_address: Option<&'a str>,
    pub base_module_name: Option<&'a str>,
    pub base_struct_name: Option<&'a str>,
    pub base_name_generic: Option<&'a str>,
    pub quote_account_address: &'a str,
    pub quote_module_name: &'a str,
    pub quote_struct_name: &'a str,
    pub lot_size: Decimal,
    pub tick_size: Decimal,
    pub min_size: Decimal,
    pub underwriter_id: Decimal,
}

/// The base coin of a registration row: the row names a coin where it holds
/// all three parts of its identity.
pub open spec fn base_coin(
    account_address: Option<String>,
    module_name: Option<String>,
    struct_name: Option<String>,
) -> Option<CoinId> {
    match (account_address, module_name, struct_name) {
        (Some(account_address), Some(module_name), Some(struct_name)) => Some(
            CoinId { account_address, module_name, struct_name },
        ),
        _ => None,
    }
}

impl TryFrom<MarketRegistrationEvent> for events::MarketRegistrationEvent {
    type Error = ConversionError;

    fn try_from(value: MarketRegistrationEvent) -> (r: Result<
        events::MarketRegistrationEvent,
        ConversionError,
    >) {
        let market_id = match to_fixed_u64(&value.market_id, Field::MarketId) {
            Ok(n) => n,
            Err(e) => {
                return Err(e);
            },
        };
        let lot_size = match to_fixed_u64(&value.lot_size, Field::LotSize) {
            Ok(n) => n,
            Err(e) => {
                return Err(e);
            },
        };
        let tick_size = match to_fixed_u64(&value.tick_size, Field::TickSize) {
            Ok(n) => n,
            Err(e) => {
                return Err(e);
            },
        };
        let min_size = match to_fixed_u64(&value.min_size, Field::MinSize) {
            Ok(n) => n,
            Err(e) => {
                return Err(e);
            },
        };
        let underwriter_id = match to_fixed_u64(&value.underwriter_id, Field::UnderwriterId) {
            Ok(n) => n,
            Err(e) => {
                return Err(e);
            },
        };
        let base = match (
            value.base_account_address,
            value.base_module_name,
            value.base_struct_name,
        ) {
            (Some(account_address), Some(module_name), Some(struct_name)) => Some(
                CoinId { account_address, module_name, struct_name },
            ),
            _ => None,
        };
        Ok(
            events::MarketRegistrationEvent {
                market_id,
                time: value.time,
                base,
                base_name_generic: value.base_name_generic,
                quote: CoinId {
                    account_address: value.quote_account_address,
                    module_name: value.quote_module_name,
                    struct_name: value.quote_struct_name,
                },
                lot_size,
                tick_size,
                min_size,
                underwriter_id,
            },
        )
    }
}

impl TryFromSpecImpl<MarketRegistrationEvent> for events::MarketRegistrationEvent {
    open spec fn obeys_try_from_spec() -> bool {
        true
    }

    /// Every numeric column converted strictly; the first that fails, in the
    /// order market, lot size, tick size, minimum size, underwriter, is the
    /// error.
    open spec fn try_from_spec(value: MarketRegistrationEvent) -> Result<
        events::MarketRegistrationEvent,
        ConversionError,
    > {
        let market_id = fixed_result(value.market_id@, 0, Field::MarketId);
        let lot_size = fixed_result(value.lot_size@, 0, Field::LotSize);
        let tick_size = fixed_result(value.tick_size@, 0, Field::TickSize);
        let min_size = fixed_result(value.min_size@, 0, Field::MinSize);
        let underwriter_id = fixed_result(value.underwriter_id@, 0, Field::UnderwriterId);
        if market_id is Err {
            Err(market_id->Err_0)
        } else if lot_size is Err {
            Err(lot_size->Err_0)
        } else if tick_size is Err {
            Err(tick_size->Err_0)
        } else if min_size is Err {
            Err(min_size->Err_0)
        } else if underwriter_id is Err {
            Err(underwriter_id->Err_0)
        } else {
            Ok(
                events::MarketRegistrationEvent {
                    market_id: market_id->Ok_0,
                    time: value.time,
                    base: base_coin(
                        value.base_account_address,
                        value.base_module_name,
                        value.base_struct_name,
                    ),
                    base_name_generic: value.base_name_generic,
                    quote: CoinId {
                        account_address: value.quote_account_address,
                        module_name: value.quote_module_name,
                        struct_name: value.quote_struct_name,
                    },
                    lot_size: lot_size->Ok_0,
                    tick_size: tick_size->Ok_0,
                    min_size: min_size->Ok_0,
                    underwriter_id: underwriter_id->Ok_0,
                },
            )
        }
    }
}

/// What happened to a resting order, as the store spells it.
#[derive(Clone, Copy, Debug, PartialEq, Eq, Structural)]
pub enum MakerEventType {
    Cancel,
    Change,
    Evict,
    Place,
}

impl MakerEventType {
    /// The same event type, as the events spell it.
    pub open spec fn normalised(self) -> events::MakerEventType {
        match self {
            MakerEventType::Cancel => events::MakerEventType::Cancel,
            MakerEventType::Change => events::MakerEventType::Change,
            MakerEventType::Evict => events::MakerEventType::Evict,
            MakerEventType::Place => events::MakerEventType::Place,
        }
    }

    /// The same event type, as the store spells it.
    pub open spec fn stored(value: events::MakerEventType) -> MakerEventType {
        match value {
            events::MakerEventType::Cancel => MakerEventType::Cancel,
            events::MakerEventType::Change => MakerEventType::Change,
            events::MakerEventType::Evict => MakerEventType::Evict,
            events::MakerEventType::Place => MakerEventType::Place,
        }
    }
}

impl From<events::MakerEventType> for MakerEventType {
    fn from(value: events::MakerEventType) -> (r: MakerEventType) {
        match value {
            events::MakerEventType::Cancel => MakerEventType::Cancel,
            events::MakerEventType::Change => MakerEventType::Change,
            events::MakerEventType::Evict => MakerEventType::Evict,
            events::MakerEventType::Place => MakerEventType::Place,
        }
    }
}

impl FromSpecImpl<events::MakerEventType> for MakerEventType {
    open spec fn obeys_from_spec() -> bool {
        true
    }

    open spec fn from_spec(value: events::MakerEventType) -> MakerEventType {
        MakerEventType::stored(value)
    }
}

impl From<MakerEventType> for events::MakerEventType {
    fn from(value: MakerEventType) -> (r: events::MakerEventType) {
        match value {
            MakerEventType::Cancel => events::MakerEventType::Cancel,
            MakerEventType::Change => events::MakerEventType::Change,
            MakerEventType::Evict => events::MakerEventType::Evict,
            MakerEventType::Place => events::MakerEventType::Place,
        }
    }
}

impl FromSpecImpl<MakerEventType> for events::MakerEventType {
    open spec fn obeys_from_spec() -> bool {
        true
    }

    open spec fn from_spec(value: MakerEventType) -> events::MakerEventType {
        value.normalised()
    }
}

/// A row of the maker event table.
#[derive(Debug)]
pub struct MakerEvent {
    pub market_id: Decimal,
    pub side: Side,
    pub market_order_id: Decimal,
    pub user_address: String,
    pub custodian_id: Option<Decimal>,
    pub event_type: MakerEventType,
    pub size: Decimal,
    pub price: Decimal,
    pub time: Timestamp,
}

/// The strict conversion of an optional decimal: absent stays absent.
pub open spec fn fixed_optional(value: Option<DecimalView>, field: Field) -> Result<
    Option<u64>,
    ConversionError,
> {
    match value {
        None => Ok(None),
        Some(d) => match fixed_result(d, 0, field) {
            Ok(n) => Ok(Some(n)),
            Err(e) => Err(e),
        },
    }
}

/// The view of an optional decimal.
pub open spec fn optional_view(value: Option<Decimal>) -> Option<DecimalView> {
    match value {
        Some(d) => Some(d@),
        None => None,
    }
}

/// Converts an optional decimal into the fixed-point domain.
pub fn to_fixed_optional(value: &Option<Decimal>, field: Field) -> (r: Result<
    Option<u64>,
    ConversionError,
>)
    ensures
        r == fixed_optional(optional_view(*value), field),
{
    match value {
        None => Ok(None),
        Some(d) => match to_fixed_u64(d, field) {
            Ok(n) => Ok(Some(n)),
            Err(e) => Err(e),
        },
    }
}

/// The mathematical content of a [`MakerEvent`] row.
pub struct MakerEventRowView {
    pub market_id: DecimalView,
    pub side: Side,
    pub market_order_id: DecimalView,
    pub user_address: Seq<char>,
    pub custodian_id: Option<DecimalView>,
    pub event_type: MakerEventType,
    pub size: DecimalView,
    pub price: DecimalView,
    pub time: Timestamp,
}

impl View for MakerEvent {
    type V = MakerEventRowView;

    open spec fn view(&self) -> MakerEventRowView {
        MakerEventRowView {
            market_id: self.market_id@,
            side: self.side,
            market_order_id: self.market_order_id@,
            user_address: self.user_address@,
            custodian_id: optional_view(self.custodian_id),
            event_type: self.event_type,
            size: self.size@,
            price: self.price@,
            time: self.time,
        }
    }
}

/// The maker event that a row holds, its sizes and prices brought to units
/// of `10^-places`. Every numeric column is converted strictly; the first
/// that fails, in the order market, order, custodian, size, price, is the
/// error.
pub open spec fn normalised_maker(row: MakerEventRowView, places: nat) -> Result<
    events::MakerEventView,
    ConversionError,
> {
    let market_id = fixed_result(row.market_id, 0, Field::MarketId);
    let market_order_id = fixed_result(row.market_order_id, 0, Field::MarketOrderId);
    let custodian_id = fixed_optional(row.custodian_id, Field::CustodianId);
    let size = fixed_result(row.size, places, Field::Size);
    let price = fixed_result(row.price, places, Field::Price);
    if market_id is Err {
        Err(market_id->Err_0)
    } else if market_order_id is Err {
        Err(market_order_id->Err_0)
    } else if custodian_id is Err {
        Err(custodian_id->Err_0)
    } else if size is Err {
        Err(size->Err_0)
    } else if price is Err {
        Err(price->Err_0)
    } else {
        Ok(
            events::MakerEventView {
                market_id: market_id->Ok_0,
                side: row.side,
                market_order_id: market_order_id->Ok_0,
                user_address: row.user_address,
                custodian_id: custodian_id->Ok_0,
                event_type: row.event_type.normalised(),
                size: size->Ok_0,
                price: price->Ok_0,
                time: row.time,
            },
        )
    }
}

impl MakerEvent {
    /// Brings the row into the fixed-point domain, its sizes and prices in
    /// units of `10^-places`.
    pub fn normalise(self, places: u8) -> (r: Result<events::MakerEvent, ConversionError>)
        ensures
            match r {
                Ok(event) => normalised_maker(self@, places as nat) == Ok::<
                    events::MakerEventView,
                    ConversionError,
                >(event@) && event.user_address == self.user_address,
                Err(e) => normalised_maker(self@, places as nat) == Err::<
                    events::MakerEventView,
                    ConversionError,
                >(e),
            },
    {
        let market_id = to_fixed_u64(&self.market_id, Field::MarketId)?;
        let market_order_id = to_fixed_u64(&self.market_order_id, Field::MarketOrderId)?;
        let custodian_id = to_fixed_optional(&self.custodian_id, Field::CustodianId)?;
        let size = to_fixed_units(&self.size, places, Field::Size)?;
        let price = to_fixed_units(&self.price, places, Field::Price)?;
        Ok(
            events::MakerEvent {
                market_id,
                side: self.side,
                market_order_id,
                user_address: self.user_address,
                custodian_id,
                event_type: events::MakerEventType::from(self.event_type),
                size,
                price,
                time: self.time,
            },
        )
    }
}

impl TryFrom<MakerEvent> for events::MakerEvent {
    type Error = ConversionError;

    fn try_from(value: MakerEvent) -> (r: Result<events::MakerEvent, ConversionError>) {
        value.normalise(0)
    }
}

impl TryFromSpecImpl<MakerEvent> for events::MakerEvent {
    open spec fn obeys_try_from_spec() -> bool {
        true
    }

    /// The event that the row holds, in the units of the row.
    open spec fn try_from_spec(value: MakerEvent) -> Result<events::MakerEvent, ConversionError> {
        match normalised_maker(value@, 0) {
            Ok(event) => Ok(
                events::MakerEvent {
                    market_id: event.market_id,
                    side: event.side,
                    market_order_id: event.market_order_id,
                    user_address: value.user_address,
                    custodian_id: event.custodian_id,
                    event_type: event.event_type,
                    size: event.size,
                    price: event.price,
                    time: event.time,
                },
            ),
            Err(e) => Err(e),
        }
    }
}

/// A row of the taker event table.
#[derive(Debug)]
pub struct TakerEvent {
    pub market_id: Decimal,
    pub side: Side,
    pub market_order_id: Decimal,
    pub maker: String,
    pub custodian_id: Option<Decimal>,
    pub size: Decimal,
    pub price: Decimal,
    pub time: Timestamp,
}

/// A taker event as it is written to the table: borrowed from a
/// [`TakerEvent`].
#[derive(Debug)]
pub struct NewTakerEvent<'a> {
    pub market_id: &'a Decimal,
    pub side: &'a Side,
    pub market_order_id: &'a Decimal,
    pub maker: &'a str,
    pub custodian_id: Option<&'a Decimal>,
    pub size: &'a Decimal,
    pub price: &'a Decimal,
    pub time: &'a Timestamp,
}

/// The mathematical content of a [`TakerEvent`] row.
pub struct TakerEventRowView {
    pub market_id: DecimalView,
    pub side: Side,
    pub market_order_id: DecimalView,
    pub maker: Seq<char>,
    pub custodian_id: Option<DecimalView>,
    pub size: DecimalView,
    pub price: DecimalView,
    pub time: Timestamp,
}

impl View for TakerEvent {
    type V = TakerEventRowView;

    open spec fn view(&self) -> TakerEventRowView {
        TakerEventRowView {
            market_id: self.market_id@,
            side: self.side,
            market_order_id: self.market_order_id@,
            maker: self.maker@,
            custodian_id: optional_view(self.custodian_id),
            size: self.size@,
            price: self.price@,
            time: self.time,
        }
    }
}

/// The taker event that a row holds, its size and price brought to units of
/// `10^-places`. Every numeric column is converted strictly; the first that
/// fails, in the order market, order, custodian, size, price, is the error.
pub open spec fn normalised_taker(row: TakerEventRowView, places: nat) -> Result<
    events::TakerEventView,
    ConversionError,
> {
    let market_id = fixed_result(row.market_id, 0, Field::MarketId);
    let market_order_id = fixed_result(row.market_order_id, 0, Field::MarketOrderId);
    let custodian_id = fixed_optional(row.custodian_id, Field::CustodianId);
    let size = fixed_result(row.size, places, Field::Size);
    let price = fixed_result(row.price, places, Field::Price);
    if market_id is Err {
        Err(market_id->Err_0)
    } else if market_order_id is Err {
        Err(market_order_id->Err_0)
    } else if custodian_id is Err {
        Err(custodian_id->Err_0)
    } else if size is Err {
        Err(size->Err_0)
    } else if price is Err {
        Err(price->Err_0)
    } else {
        Ok(
            events::TakerEventView {
                market_id: market_id->Ok_0,
                side: row.side,
                market_order_id: market_order_id->Ok_0,
                maker: row.maker,
                custodian_id: custodian_id->Ok_0,
                size: size->Ok_0,
                price: price->Ok_0,
                time: row.time,
            },
        )
    }
}

impl TakerEvent {
    /// Brings the row into the fixed-point domain, its size and price in
    /// units of `10^-places`.
    pub fn normalise(self, places: u8) -> (r: Result<events::TakerEvent, ConversionError>)
        ensures
            match r {
                Ok(event) => normalised_taker(self@, places as nat) == Ok::<
                    events::TakerEventView,
                    ConversionError,
                >(event@) && event.maker == self.maker,
                Err(e) => normalised_taker(self@, places as nat) == Err::<
                    events::TakerEventView,
                    ConversionError,
                >(e),
            },
    {
        let market_id = to_fixed_u64(&self.market_id, Field::MarketId)?;
        let market_order_id = to_fixed_u64(&self.market_order_id, Field::MarketOrderId)?;
        let custodian_id = to_fixed_optional(&self.custodian_id, Field::CustodianId)?;
        let size = to_fixed_units(&self.size, places, Field::Size)?;
        let price = to_fixed_units(&self.price, places, Field::Price)?;
        Ok(
            events::TakerEvent {
                market_id,
                side: self.side,
                market_order_id,
                maker: self.maker,
                custodian_id,
                size,
                price,
                time: self.time,
            },
        )
    }
}

impl TryFrom<TakerEvent> for events::TakerEvent {
    type Error = ConversionError;

    fn try_from(value: TakerEvent) -> (r: Result<events::TakerEvent, ConversionError>) {
        value.normalise(0)
    }
}

impl TryFromSpecImpl<TakerEvent> for events::TakerEvent {
    open spec fn obeys_try_from_spec() -> bool {
        true
    }

    /// The event that the row holds, in the units of the row.
    open spec fn try_from_spec(value: TakerEvent) -> Result<events::TakerEvent, ConversionError> {
        match normalised_taker(value@, 0) {
            Ok(event) => Ok(
                events::TakerEvent {
                    market_id: event.market_id,
                    side: event.side,
                    market_order_id: event.market_order_id,
                    maker: value.maker,
                    custodian_id: event.custodian_id,
                    size: event.size,
                    price: event.price,
                    time: event.time,
                },
            ),
            Err(e) => Err(e),
        }
    }
}

/// The resting size at one price, as the broker sends it: in decimals.
#[derive(Debug)]
pub struct PriceLevel {
    pub market_id: Decimal,
    pub side: Side,
    pub price: Decimal,
    pub size: Decimal,
    pub time: Timestamp,
}

/// The mathematical content of a [`PriceLevel`] row.
pub struct PriceLevelRowView {
    pub market_id: DecimalView,
    pub side: Side,
    pub price: DecimalView,
    pub size: DecimalView,
    pub time: Timestamp,
}

impl View for PriceLevel {
    type V = PriceLevelRowView;

    open spec fn view(&self) -> PriceLevelRowView {
        PriceLevelRowView {
            market_id: self.market_id@,
            side: self.side,
            price: self.price@,
            size: self.size@,
            time: self.time,
        }
    }
}

/// The price level that a row holds, its price and size brought to units of
/// `10^-places`. The first column that fails, in the order market, price,
/// size, is the error.
pub open spec fn normalised_level(row: PriceLevelRowView, places: nat) -> Result<
    events::PriceLevel,
    ConversionError,
> {
    let market_id = fixed_result(row.market_id, 0, Field::MarketId);
    let price = fixed_result(row.price, places, Field::Price);
    let size = fixed_result(row.size, places, Field::Size);
    if market_id is Err {
        Err(market_id->Err_0)
    } else if price is Err {
        Err(price->Err_0)
    } else if size is Err {
        Err(size->Err_0)
    } else {
        Ok(
            events::PriceLevel {
                market_id: market_id->Ok_0,
                side: row.side,
                price: price->Ok_0,
                size: size->Ok_0,
                time: row.time,
            },
        )
    }
}

impl PriceLevel {
    /// Brings the row into the fixed-point domain, its price and size in
    /// units of `10^-places`.
    pub fn normalise(self, places: u8) -> (r: Result<events::PriceLevel, ConversionError>)
        ensures
            r == normalised_level(self@, places as nat),
    {
        let market_id = to_fixed_u64(&self.market_id, Field::MarketId)?;
        let price = to_fixed_units(&self.price, places, Field::Price)?;
        let size = to_fixed_units(&self.size, places, Field::Size)?;
        Ok(events::PriceLevel { market_id, side: self.side, price, size, time: self.time })
    }
}

/// A maker event as it is written to the table.
#[derive(Debug)]
pub struct NewMakerEvent {
    pub market_id: Decimal,
    pub side: Side,
    pub market_order_id: Decimal,
    pub user_address: String,
    pub custodian_id: Option<Decimal>,
    pub event_type: MakerEventType,
    pub size: Decimal,
    pub price: Decimal,
    pub time: Timestamp,
}

impl NewMakerEvent {
    /// The row writes exactly the numbers of `event`.
    pub open spec fn writes(self, event: events::MakerEvent) -> bool {
        &&& self.market_id@ == DecimalView::of_u64(event.market_id)
        &&& self.side == event.side
        &&& self.market_order_id@ == DecimalView::of_u64(event.market_order_id)
        &&& self.user_address == event.user_address
        &&& match event.custodian_id {
            Some(id) => self.custodian_id matches Some(d) && d@ == DecimalView::of_u64(id),
            None => self.custodian_id is None,
        }
        &&& self.event_type == MakerEventType::stored(event.event_type)
        &&& self.size@ == DecimalView::of_u64(event.size)
        &&& self.price@ == DecimalView::of_u64(event.price)
        &&& self.time == event.time
    }
}

impl From<events::MakerEvent> for NewMakerEvent {
    fn from(value: events::MakerEvent) -> (r: NewMakerEvent)
        ensures
            r.writes(value),
    {
        NewMakerEvent {
            market_id: Decimal::from_u64(value.market_id),
            side: value.side,
            market_order_id: Decimal::from_u64(value.market_order_id),
            user_address: value.user_address,
            custodian_id: match value.custodian_id {
                Some(id) => Some(Decimal::from_u64(id)),
                None => None,
            },
            event_type: MakerEventType::from(value.event_type),
            size: Decimal::from_u64(value.size),
            price: Decimal::from_u64(value.price),
            time: value.time,
        }
    }
}

impl FromSpecImpl<events::MakerEvent> for NewMakerEvent {
    /// A number does not fix the digits that write it, so the conversion is
    /// stated by [`NewMakerEvent::writes`] and not by an equation.
    open spec fn obeys_from_spec() -> bool {
        false
    }

    open spec fn from_spec(value: events::MakerEvent) -> NewMakerEvent {
        arbitrary()
    }
}

} // verus!
