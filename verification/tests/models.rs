use market_feed::config::Env;
use market_feed::decimal::to_fixed_u64;
use market_feed::decimal::Decimal;
use market_feed::error::ConversionError;
use market_feed::error::Field;
use market_feed::events;
use market_feed::models::coin::Coin;
use market_feed::models::events::MakerEvent;
use market_feed::models::events::MakerEventType;
use market_feed::models::events::MarketRegistrationEvent;
use market_feed::models::events::NewMakerEvent;
use market_feed::models::events::PriceLevel;
use market_feed::models::events::TakerEvent;
use market_feed::types;
use market_feed::types::Timestamp;

fn dec(text: &str) -> Decimal {
    Decimal::parse(text).expect("a decimal")
}

fn maker_row() -> MakerEvent {
    MakerEvent {
        market_id: dec("5"),
        side: events::Side::Ask,
        market_order_id: dec("77"),
        user_address: "0xdef".to_string(),
        custodian_id: Some(dec("3")),
        event_type: MakerEventType::Change,
        size: dec("1200"),
        price: dec("350.0"),
        time: Timestamp { seconds: 10, nanos: 20 },
    }
}

#[test]
fn maker_row_converts() {
    assert_eq!(
        events::MakerEvent::try_from(maker_row()),
        Ok(events::MakerEvent {
            market_id: 5,
            side: events::Side::Ask,
            market_order_id: 77,
            user_address: "0xdef".to_string(),
            custodian_id: Some(3),
            event_type: events::MakerEventType::Change,
            size: 1200,
            price: 350,
            time: Timestamp { seconds: 10, nanos: 20 },
        })
    );
    let mut row = maker_row();
    row.custodian_id = None;
    assert_eq!(events::MakerEvent::try_from(row).expect("an event").custodian_id, None);
}

#[test]
fn maker_row_names_the_first_bad_column() {
    let mut row = maker_row();
    row.market_id = dec("-5");
    row.price = dec("0.5");
    assert_eq!(
        events::MakerEvent::try_from(row),
        Err(ConversionError { field: Field::MarketId })
    );
    let mut row = maker_row();
    row.market_order_id = dec("18446744073709551616");
    assert_eq!(
        events::MakerEvent::try_from(row),
        Err(ConversionError { field: Field::MarketOrderId })
    );
    let mut row = maker_row();
    row.custodian_id = Some(dec("1.5"));
    row.size = dec("-1");
    assert_eq!(
        events::MakerEvent::try_from(row),
        Err(ConversionError { field: Field::CustodianId })
    );
    let mut row = maker_row();
    row.size = dec("0.1");
    row.price = dec("0.1");
    assert_eq!(events::MakerEvent::try_from(row), Err(ConversionError { field: Field::Size }));
    let mut row = maker_row();
    row.price = dec("3.501");
    assert_eq!(events::MakerEvent::try_from(row), Err(ConversionError { field: Field::Price }));
}

#[test]
fn maker_event_is_written_back_as_decimals() {
    let event = events::MakerEvent::try_from(maker_row()).expect("an event");
    let row = NewMakerEvent::from(event);
    assert_eq!(to_fixed_u64(&row.market_id, Field::MarketId), Ok(5));
    assert_eq!(to_fixed_u64(&row.market_order_id, Field::MarketOrderId), Ok(77));
    assert_eq!(to_fixed_u64(&row.size, Field::Size), Ok(1200));
    assert_eq!(to_fixed_u64(&row.price, Field::Price), Ok(350));
    assert_eq!(row.price.digits(), &vec![3u8, 5, 0]);
    assert_eq!(row.price.scale(), 0);
    assert_eq!(row.custodian_id.map(|id| to_fixed_u64(&id, Field::CustodianId)), Some(Ok(3)));
    assert_eq!(row.side, events::Side::Ask);
    assert_eq!(row.event_type, MakerEventType::Change);
    assert_eq!(row.user_address, "0xdef");
    assert_eq!(row.time, Timestamp { seconds: 10, nanos: 20 });
}

#[test]
fn event_types_map_both_ways() {
    for (stored, normalised) in [
        (MakerEventType::Cancel, events::MakerEventType::Cancel),
        (MakerEventType::Change, events::MakerEventType::Change),
        (MakerEventType::Evict, events::MakerEventType::Evict),
        (MakerEventType::Place, events::MakerEventType::Place),
    ] {
        assert_eq!(events::MakerEventType::from(stored), normalised);
        assert_eq!(MakerEventType::from(normalised), stored);
    }
}

#[test]
fn taker_row_converts() {
    let row = TakerEvent {
        market_id: dec("5"),
        side: events::Side::Bid,
        market_order_id: dec("1e2"),
        maker: "0xabc".to_string(),
        custodian_id: None,
        size: dec("12.00"),
        price: dec("3"),
        time: Timestamp { seconds: 1, nanos: 2 },
    };
    assert_eq!(
        events::TakerEvent::try_from(row),
        Ok(events::TakerEvent {
            market_id: 5,
            side: events::Side::Bid,
            market_order_id: 100,
            maker: "0xabc".to_string(),
            custodian_id: None,
            size: 12,
            price: 3,
            time: Timestamp { seconds: 1, nanos: 2 },
        })
    );
    let row = TakerEvent {
        market_id: dec("5"),
        side: events::Side::Bid,
        market_order_id: dec("1"),
        maker: "0xabc".to_string(),
        custodian_id: None,
        size: dec("12.5"),
        price: dec("3"),
        time: Timestamp { seconds: 1, nanos: 2 },
    };
    assert_eq!(events::TakerEvent::try_from(row), Err(ConversionError { field: Field::Size }));
}

fn registration_row() -> MarketRegistrationEvent {
    MarketRegistrationEvent {
        market_id: dec("5"),
        time: Timestamp { seconds: 1, nanos: 2 },
        base_account_address: Some("0x1".to_string()),
        base_module_name: Some("coin".to_string()),
        base_struct_name: Some("Base".to_string()),
        base_name_generic: None,
        quote_account_address: "0x2".to_string(),
        quote_module_name: "coin".to_string(),
        quote_struct_name: "Quote".to_string(),
        lot_size: dec("100"),
        tick_size: dec("10"),
        min_size: dec("1"),
        underwriter_id: dec("0"),
    }
}

#[test]
fn registration_row_converts() {
    let event = events::MarketRegistrationEvent::try_from(registration_row()).expect("an event");
    assert_eq!(event.market_id, 5);
    assert_eq!(
        event.base,
        Some(events::CoinId {
            account_address: "0x1".to_string(),
            module_name: "coin".to_string(),
            struct_name: "Base".to_string(),
        })
    );
    assert_eq!(event.base_name_generic, None);
    assert_eq!(event.quote.struct_name, "Quote");
    assert_eq!((event.lot_size, event.tick_size, event.min_size, event.underwriter_id), (100, 10, 1, 0));

    let mut row = registration_row();
    row.base_account_address = None;
    row.base_module_name = None;
    row.base_struct_name = None;
    row.base_name_generic = Some("generic".to_string());
    let event = events::MarketRegistrationEvent::try_from(row).expect("an event");
    assert_eq!(event.base, None);
    assert_eq!(event.base_name_generic, Some("generic".to_string()));

    let mut row = registration_row();
    row.tick_size = dec("0.1");
    row.min_size = dec("-1");
    assert_eq!(
        events::MarketRegistrationEvent::try_from(row),
        Err(ConversionError { field: Field::TickSize })
    );
}

#[test]
fn coin_row_becomes_a_coin() {
    let row = Coin {
        account_address: "0x1".to_string(),
        module_name: "coin".to_string(),
        struct_name: "Base".to_string(),
        symbol: "BASE".to_string(),
        name: "Base coin".to_string(),
        decimals: 8,
    };
    let insertable = row.to_insertable();
    assert_eq!(insertable.account_address, "0x1");
    assert_eq!(insertable.module_name, "coin");
    assert_eq!(insertable.struct_name, "Base");
    assert_eq!(insertable.symbol, "BASE");
    assert_eq!(insertable.name, "Base coin");
    assert_eq!(insertable.decimals, 8);
    let coin = types::Coin::from(row.clone());
    assert_eq!(
        coin,
        types::Coin {
            account_address: "0x1".to_string(),
            module_name: "coin".to_string(),
            struct_name: "Base".to_string(),
            symbol: "BASE".to_string(),
            name: "Base coin".to_string(),
            decimals: 8,
        }
    );
    let mut other = coin.clone();
    other.symbol = "OTHER".to_string();
    assert!(coin.is_same_coin(&other));
    other.struct_name = "Other".to_string();
    assert!(!coin.is_same_coin(&other));
}

#[test]
fn modes_and_their_logs() {
    assert_eq!(Env::parse("development"), Some(Env::Development));
    assert_eq!(Env::parse("production"), Some(Env::Production));
    assert_eq!(Env::parse("Production"), None);
    assert_eq!(Env::parse(""), None);
    let development = Env::Development.log_settings();
    assert!(development.ansi && !development.json && development.with_time && development.with_target);
    assert_eq!(development.default_filter(), "api=debug,sqlx=debug,tower_http=debug");
    let production = Env::Production.log_settings();
    assert!(!production.ansi && production.json && !production.with_time && production.with_target);
    assert_eq!(production.default_filter(), "api=debug,sqlx=warn,tower_http=debug");
}

#[test]
fn rows_normalise_into_units() {
    let event = maker_row().normalise(2).expect("an event");
    assert_eq!((event.market_id, event.market_order_id, event.custodian_id), (5, 77, Some(3)));
    assert_eq!((event.size, event.price), (120000, 35000));
    let mut row = maker_row();
    row.price = dec("3.505");
    assert_eq!(row.normalise(2), Err(ConversionError { field: Field::Price }));
    let mut row = maker_row();
    row.price = dec("3.505");
    assert_eq!(row.normalise(3).expect("an event").price, 3505);
    let mut row = maker_row();
    row.market_id = dec("0.05");
    assert_eq!(row.normalise(2), Err(ConversionError { field: Field::MarketId }));

    let level = PriceLevel {
        market_id: dec("9"),
        side: events::Side::Bid,
        price: dec("1.5"),
        size: dec("18446744073709551.615"),
        time: Timestamp { seconds: 3, nanos: 4 },
    };
    assert_eq!(
        level.normalise(3),
        Ok(events::PriceLevel {
            market_id: 9,
            side: events::Side::Bid,
            price: 1500,
            size: u64::MAX,
            time: Timestamp { seconds: 3, nanos: 4 },
        })
    );
    let level = PriceLevel {
        market_id: dec("9"),
        side: events::Side::Bid,
        price: dec("1.5"),
        size: dec("18446744073709551.616"),
        time: Timestamp { seconds: 3, nanos: 4 },
    };
    assert_eq!(level.normalise(3), Err(ConversionError { field: Field::Size }));
}
