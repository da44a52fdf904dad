use market_feed::events::MakerEvent;
use market_feed::events::MakerEventType;
use market_feed::events::PriceLevel;
use market_feed::events::Side;
use market_feed::message::Update;
use market_feed::types::Coin;
use market_feed::types::Market;
use market_feed::types::Timestamp;

fn coin(name: &str) -> Coin {
    Coin {
        account_address: "0x1".to_string(),
        module_name: "coin".to_string(),
        struct_name: name.to_string(),
        symbol: name.to_uppercase(),
        name: name.to_string(),
        decimals: 8,
    }
}

fn market(base: Option<Coin>, base_name_generic: Option<String>) -> Market {
    Market {
        market_id: 5,
        name: "base-quote".to_string(),
        base,
        base_name_generic,
        quote: coin("quote"),
        lot_size: 100,
        tick_size: 10,
        min_size: 1,
        underwriter_id: 0,
        created_at: Timestamp { seconds: 0, nanos: 0 },
    }
}

#[test]
fn market_has_one_base() {
    assert!(market(Some(coin("base")), None).is_consistent());
    assert!(market(None, Some("generic".to_string())).is_consistent());
    assert!(!market(None, None).is_consistent());
    assert!(!market(Some(coin("base")), Some("generic".to_string())).is_consistent());
}

#[test]
fn update_knows_its_market() {
    let level = Update::PriceLevel(PriceLevel {
        market_id: 9,
        side: Side::Ask,
        price: 1,
        size: 2,
        time: Timestamp { seconds: 0, nanos: 0 },
    });
    assert_eq!(level.market_id(), 9);
    let order = Update::Maker(MakerEvent {
        market_id: 7,
        side: Side::Bid,
        market_order_id: 1,
        user_address: "0xabc".to_string(),
        custodian_id: None,
        event_type: MakerEventType::Evict,
        size: 1,
        price: 1,
        time: Timestamp { seconds: 0, nanos: 0 },
    });
    assert_eq!(order.market_id(), 7);
    assert_eq!(order.clone(), order);
}
