//! The normalised events: every numeric field is in the fixed-point domain.

use vstd::prelude::*;

use crate::types::Timestamp;

verus! {

/// The side of the book.
#[derive(Clone, Copy, Debug, PartialEq, Eq, Structural)]
pub enum Side {
    Bid,
    Ask,
}

/// What happened to a resting order.
#[derive(Clone, Copy, Debug, PartialEq, Eq, Structural)]
pub enum MakerEventType {
    Cancel,
    Change,
    Evict,
    Place,
}

/// A change to a resting order.
#[derive(Debug, PartialEq, Eq)]
pub struct MakerEvent {
    pub market_id: u64,
    pub side: Side,
    pub market_order_id: u64,
    pub user_address: String,
    /// `None` means that no custodian holds the order.
    pub custodian_id: Option<u64>,
    pub event_type: MakerEventType,
    pub size: u64,
    pub price: u64,
    pub time: Timestamp,
}

/// The mathematical content of a [`MakerEvent`].
pub struct MakerEventView {
    pub market_id: u64,
    pub side: Side,
    pub market_order_id: u64,
    pub user_address: Seq<char>,
    pub custodian_id: Option<u64>,
    pub event_type: MakerEventType,
    pub size: u64,
    pub price: u64,
    pub time: Timestamp,
}

impl View for MakerEvent {
    type V = MakerEventView;

    open spec fn view(&self) -> MakerEventView {
        MakerEventView {
            market_id: self.market_id,
            side: self.side,
            market_order_id: self.market_order_id,
            user_address: self.user_address@,
            custodian_id: self.custodian_id,
            event_type: self.event_type,
            size: self.size,
            price: self.price,
            time: self.time,
        }
    }
}

impl Clone for MakerEvent {
    fn clone(&self) -> (r: MakerEvent)
        ensures
            r == *self,
    {
        MakerEvent {
            market_id: self.market_id,
            side: self.side,
            market_order_id: self.market_order_id,
            user_address: self.user_address.clone(),
            custodian_id: self.custodian_id,
            event_type: self.event_type,
            size: self.size,
            price: self.price,
            time: self.time,
        }
    }
}

/// A fill against a resting order.
#[derive(Debug, PartialEq, Eq)]
pub struct TakerEvent {
    pub market_id: u64,
    pub side: Side,
    pub market_order_id: u64,
    pub maker: String,
    /// `None` means that no custodian holds the order.
    pub custodian_id: Option<u64>,
    pub size: u64,
    pub price: u64,
    pub time: Timestamp,
}

/// The mathematical content of a [`TakerEvent`].
pub struct TakerEventView {
    pub market_id: u64,
    pub side: Side,
    pub market_order_id: u64,
    pub maker: Seq<char>,
    pub custodian_id: Option<u64>,
    pub size: u64,
    pub price: u64,
    pub time: Timestamp,
}

impl View for TakerEvent {
    type V = TakerEventView;

    open spec fn view(&self) -> TakerEventView {
        TakerEventView {
            market_id: self.market_id,
            side: self.side,
            market_order_id: self.market_order_id,
            maker: self.maker@,
            custodian_id: self.custodian_id,
            size: self.size,
            price: self.price,
            time: self.time,
        }
    }
}

impl Clone for TakerEvent {
    fn clone(&self) -> (r: TakerEvent)
        ensures
            r == *self,
    {
        TakerEvent {
            market_id: self.market_id,
            side: self.side,
            market_order_id: self.market_order_id,
            maker: self.maker.clone(),
            custodian_id: self.custodian_id,
            size: self.size,
            price: self.price,
            time: self.time,
        }
    }
}

/// The identity of a coin: address, module and struct name.
#[derive(Debug, PartialEq, Eq)]
pub struct CoinId {
    pub account_address: String,
    pub module_name: String,
    pub struct_name: String,
}

/// The mathematical content of a [`CoinId`].
pub struct CoinIdView {
    pub account_address: Seq<char>,
    pub module_name: Seq<char>,
    pub struct_name: Seq<char>,
}

impl View for CoinId {
    type V = CoinIdView;

    open spec fn view(&self) -> CoinIdView {
        CoinIdView {
            account_address: self.account_address@,
            module_name: self.module_name@,
            struct_name: self.struct_name@,
        }
    }
}

impl Clone for CoinId {
    fn clone(&self) -> (r: CoinId)
        ensures
            r == *self,
    {
        CoinId {
            account_address: self.account_address.clone(),
            module_name: self.module_name.clone(),
            struct_name: self.struct_name.clone(),
        }
    }
}

/// The registration of a market.
#[derive(Debug, PartialEq, Eq)]
pub struct MarketRegistrationEvent {
    pub market_id: u64,
    pub time: Timestamp,
    /// `None` for a market with a generic base.
    pub base: Option<CoinId>,
    pub base_name_generic: Option<String>,
    pub quote: CoinId,
    pub lot_size: u64,
    pub tick_size: u64,
    pub min_size: u64,
    pub underwriter_id: u64,
}

/// The mathematical content of a [`MarketRegistrationEvent`].
pub struct MarketRegistrationEventView {
    pub market_id: u64,
    pub time: Timestamp,
    pub base: Option<CoinIdView>,
    pub base_name_generic: Option<Seq<char>>,
    pub quote: CoinIdView,
    pub lot_size: u64,
    pub tick_size: u64,
    pub min_size: u64,
    pub underwriter_id: u64,
}

impl View for MarketRegistrationEvent {
    type V = MarketRegistrationEventView;

    open spec fn view(&self) -> MarketRegistrationEventView {
        MarketRegistrationEventView {
            market_id: self.market_id,
            time: self.time,
            base: match self.base {
                Some(coin) => Some(coin@),
                None => None,
            },
            base_name_generic: match self.base_name_generic {
                Some(name) => Some(name@),
                None => None,
            },
            quote: self.quote@,
            lot_size: self.lot_size,
            tick_size: self.tick_size,
            min_size: self.min_size,
            underwriter_id: self.underwriter_id,
        }
    }
}

impl Clone for MarketRegistrationEvent {
    fn clone(&self) -> (r: MarketRegistrationEvent)
        ensures
            r == *self,
    {
        MarketRegistrationEvent {
            market_id: self.market_id,
            time: self.time,
            base: match &self.base {
                Some(coin) => Some(coin.clone()),
                None => None,
            },
            base_name_generic: match &self.base_name_generic {
                Some(name) => Some(name.clone()),
                None => None,
            },
            quote: self.quote.clone(),
            lot_size: self.lot_size,
            tick_size: self.tick_size,
            min_size: self.min_size,
            underwriter_id: self.underwriter_id,
        }
    }
}

/// The resting size at one price of one side of a market.
#[derive(Clone, Copy, Debug, PartialEq, Eq, Structural)]
pub struct PriceLevel {
    pub market_id: u64,
    pub side: Side,
    pub price: u64,
    pub size: u64,
    pub time: Timestamp,
}

} // verus!
