//! The ingestion step: one payload in, at most one update out on the bus.
//!
//! The task that reads the broker calls [`ingest`] for each payload in the
//! order of arrival. A payload that does not decode is dropped and changes
//! nothing, so what follows it is handled as if it had never come.

use vstd::prelude::*;

use crate::bus::Bus;
use crate::bus::BusView;
use crate::decoder::decoded;
use crate::decoder::Decoder;
use crate::error::DecodeError;

verus! {

/// What became of a payload.
#[derive(Clone, Copy, Debug, PartialEq, Eq, Structural)]
pub enum Outcome {
    /// It was decoded and published.
    Published,
    /// It was dropped for this reason; the caller logs it and goes on.
    Dropped(DecodeError),
    /// It was decoded, but the bus is shut down: ingestion is over.
    Closed,
}

/// The bus after a payload came on the channel called `name`.
pub open spec fn ingested(bus: BusView, name: Seq<char>, payload: Seq<u8>, places: nat) -> BusView {
    match decoded(name, payload, places) {
        Ok(update) => bus.publish(update),
        Err(_) => bus,
    }
}

/// What becomes of a payload that comes on the channel called `name`.
pub open spec fn outcome(bus: BusView, name: Seq<char>, payload: Seq<u8>, places: nat) -> Outcome {
    match decoded(name, payload, places) {
        Ok(_) => if bus.accepts() {
            Outcome::Published
        } else {
            Outcome::Closed
        },
        Err(e) => Outcome::Dropped(e),
    }
}

/// Decodes a payload and publishes the update it holds.
pub fn ingest(bus: &mut Bus, decoder: &Decoder, channel_name: &str, raw_payload: &[u8]) -> (r:
    Outcome)
    ensures
        final(bus)@ == ingested(old(bus)@, channel_name@, raw_payload@, decoder.places as nat),
        r == outcome(old(bus)@, channel_name@, raw_payload@, decoder.places as nat),
{
    match decoder.decode(channel_name, raw_payload) {
        Ok(update) => match bus.publish(update) {
            Ok(()) => Outcome::Published,
            Err(_) => Outcome::Closed,
        },
        Err(e) => Outcome::Dropped(e),
    }
}

/// A malformed payload prevents nothing: whatever comes after it, on the
/// same channel or on another, is decoded and published as if the malformed
/// payload had not come.
pub proof fn lemma_malformed_is_skipped(
    bus: BusView,
    bad_name: Seq<char>,
    bad_payload: Seq<u8>,
    name: Seq<char>,
    payload: Seq<u8>,
    places: nat,
)
    requires
        decoded(bad_name, bad_payload, places) is Err,
    ensures
        ingested(bus, bad_name, bad_payload, places) == bus,
        ingested(ingested(bus, bad_name, bad_payload, places), name, payload, places) == ingested(
            bus,
            name,
            payload,
            places,
        ),
        outcome(ingested(bus, bad_name, bad_payload, places), name, payload, places) == outcome(
            bus,
            name,
            payload,
            places,
        ),
{
}

} // verus!
