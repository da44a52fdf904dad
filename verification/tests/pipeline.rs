use market_feed::bus::Bus;
use market_feed::decoder::Decoder;
use market_feed::error::BusError;
use market_feed::error::DecodeError;
use market_feed::error::Field;
use market_feed::message::Update;
use market_feed::pipeline::ingest;
use market_feed::pipeline::Outcome;
use market_feed::registry::MarketSet;
use market_feed::subscription::SubscriptionAction;
use market_feed::subscription::SubscriptionManager;

fn fill(market: u64, order: u64, price: &str) -> String {
    format!(
        "{{\"market_id\": {}, \"side\": \"bid\", \"market_order_id\": {}, \"maker\": \"0xabc\", \
         \"size\": \"12.0\", \"price\": \"{}\", \"time\": \"2023-05-01T12:00:00Z\"}}",
        market, order, price
    )
}

#[test]
fn fill_reaches_a_subscriber_that_joined_before() {
    let markets = MarketSet::from_ids(&vec![5]);
    let mut manager = SubscriptionManager::subscribe_all(&markets);
    let mut names: Vec<String> = Vec::new();
    while let SubscriptionAction::Subscribe(channel) = manager.next_action() {
        names.push(channel.name());
        manager.confirm(true);
    }
    assert_eq!(names, vec!["orders:5", "fills:5", "price_levels:5"]);
    assert_eq!(manager.next_action(), SubscriptionAction::Listen);

    let decoder = Decoder::new(2);
    let mut bus = Bus::default();
    let consumer = bus.subscribe();
    assert_eq!(ingest(&mut bus, &decoder, "fills:5", fill(5, 1, "3.50").as_bytes()), Outcome::Published);
    match bus.next(&consumer) {
        Some(Ok(Update::Taker(event))) => {
            assert_eq!(event.market_id, 5);
            assert_eq!(event.size, 1200);
            assert_eq!(event.price, 350);
        }
        other => panic!("{:?}", other),
    }
    assert_eq!(bus.next(&consumer), None);
}

#[test]
fn bad_price_publishes_nothing() {
    let decoder = Decoder::new(2);
    let mut bus = Bus::default();
    let consumer = bus.subscribe();
    assert_eq!(
        ingest(&mut bus, &decoder, "fills:5", fill(5, 1, "3.501").as_bytes()),
        Outcome::Dropped(DecodeError::ConversionError { field: Field::Price })
    );
    assert_eq!(bus.published(), 0);
    assert_eq!(bus.next(&consumer), None);
}

#[test]
fn malformed_payload_does_not_stop_what_follows() {
    let decoder = Decoder::new(2);
    let mut bus = Bus::default();
    let consumer = bus.subscribe();
    assert_eq!(ingest(&mut bus, &decoder, "fills:5", fill(5, 1, "1").as_bytes()), Outcome::Published);
    assert_eq!(
        ingest(&mut bus, &decoder, "fills:5", b"{broken"),
        Outcome::Dropped(DecodeError::Payload)
    );
    assert_eq!(
        ingest(&mut bus, &decoder, "nothing", fill(5, 2, "1").as_bytes()),
        Outcome::Dropped(DecodeError::Channel)
    );
    assert_eq!(
        ingest(&mut bus, &decoder, "fills:7", fill(5, 2, "1").as_bytes()),
        Outcome::Dropped(DecodeError::Inconsistent)
    );
    assert_eq!(ingest(&mut bus, &decoder, "fills:5", fill(5, 3, "1").as_bytes()), Outcome::Published);
    assert_eq!(ingest(&mut bus, &decoder, "fills:7", fill(7, 4, "1").as_bytes()), Outcome::Published);
    assert_eq!(bus.published(), 3);
    let mut orders: Vec<u64> = Vec::new();
    while let Some(Ok(Update::Taker(event))) = bus.next(&consumer) {
        orders.push(event.market_order_id);
    }
    assert_eq!(orders, vec![1, 3, 4]);
}

#[test]
fn closed_bus_ends_ingestion() {
    let decoder = Decoder::new(2);
    let mut bus = Bus::new(2);
    let consumer = bus.subscribe();
    assert_eq!(ingest(&mut bus, &decoder, "fills:5", fill(5, 1, "1").as_bytes()), Outcome::Published);
    bus.close();
    assert_eq!(ingest(&mut bus, &decoder, "fills:5", fill(5, 2, "1").as_bytes()), Outcome::Closed);
    assert_eq!(
        ingest(&mut bus, &decoder, "fills:5", b"{"),
        Outcome::Dropped(DecodeError::Payload)
    );
    assert!(matches!(bus.next(&consumer), Some(Ok(_))));
    assert_eq!(bus.next(&consumer), Some(Err(BusError::Closed)));
}
