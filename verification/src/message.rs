//! The unit of work that flows through the bus.

use vstd::prelude::*;

use crate::events::MakerEvent;
use crate::events::MakerEventView;
use crate::events::MarketRegistrationEvent;
use crate::events::MarketRegistrationEventView;
use crate::events::PriceLevel;
use crate::events::TakerEvent;
use crate::events::TakerEventView;

verus! {

/// A normalised event of any kind.
#[derive(Debug, PartialEq, Eq)]
pub enum Update {
    MarketRegistration(MarketRegistrationEvent),
    Maker(MakerEvent),
    Taker(TakerEvent),
    PriceLevel(PriceLevel),
}

/// The mathematical content of an [`Update`].
pub enum UpdateView {
    MarketRegistration(MarketRegistrationEventView),
    Maker(MakerEventView),
    Taker(TakerEventView),
    PriceLevel(PriceLevel),
}

impl View for Update {
    type V = UpdateView;

    open spec fn view(&self) -> UpdateView {
        match self {
            Update::MarketRegistration(e) => UpdateView::MarketRegistration(e@),
            Update::Maker(e) => UpdateView::Maker(e@),
            Update::Taker(e) => UpdateView::Taker(e@),
            Update::PriceLevel(e) => UpdateView::PriceLevel(*e),
        }
    }
}

impl UpdateView {
    /// The market that the event belongs to.
    pub open spec fn market_id(self) -> u64 {
        match self {
            UpdateView::MarketRegistration(e) => e.market_id,
            UpdateView::Maker(e) => e.market_id,
            UpdateView::Taker(e) => e.market_id,
            UpdateView::PriceLevel(e) => e.market_id,
        }
    }
}

impl Update {
    /// The market that the event belongs to.
    pub fn market_id(&self) -> (r: u64)
        ensures
            r == self@.market_id(),
    {
        match self {
            Update::MarketRegistration(e) => e.market_id,
            Update::Maker(e) => e.market_id,
            Update::Taker(e) => e.market_id,
            Update::PriceLevel(e) => e.market_id,
        }
    }
}

impl Clone for Update {
    fn clone(&self) -> (r: Update)
        ensures
            r == *self,
    {
        match self {
            Update::MarketRegistration(e) => Update::MarketRegistration(e.clone()),
            Update::Maker(e) => Update::Maker(e.clone()),
            Update::Taker(e) => Update::Taker(e.clone()),
            Update::PriceLevel(e) => Update::PriceLevel(*e),
        }
    }
}

} // verus!
