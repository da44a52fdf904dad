use market_feed::channel::Channel;
use market_feed::channel::ChannelKind;
use market_feed::decoder::Decoder;
use market_feed::decoder::Entry;
use market_feed::decoder::Row;
use market_feed::decoder::Token;
use market_feed::error::DecodeError;
use market_feed::error::Field;
use market_feed::events::MakerEvent;
use market_feed::events::MakerEventType;
use market_feed::events::PriceLevel;
use market_feed::events::Side;
use market_feed::events::TakerEvent;
use market_feed::message::Update;
use market_feed::types::Timestamp;

const FILL: &str = r#"{"market_id": 5, "side": "bid", "market_order_id": 17, "maker": "0xabc",
    "custodian_id": null, "size": "12.0", "price": "3.50", "time": "2023-05-01T12:00:00Z"}"#;

fn noon() -> Timestamp {
    Timestamp { seconds: 1682942400, nanos: 0 }
}

#[test]
fn fill_is_decoded_in_units() {
    let decoder = Decoder::new(2);
    assert_eq!(
        decoder.decode_text("fills:5", FILL),
        Ok(Update::Taker(TakerEvent {
            market_id: 5,
            side: Side::Bid,
            market_order_id: 17,
            maker: "0xabc".to_string(),
            custodian_id: None,
            size: 1200,
            price: 350,
            time: noon(),
        }))
    );
    let finer = Decoder::new(4);
    match finer.decode_text("fills:5", FILL) {
        Ok(Update::Taker(event)) => {
            assert_eq!(event.size, 120000);
            assert_eq!(event.price, 35000);
        }
        other => panic!("{:?}", other),
    }
}

#[test]
fn price_below_the_unit_is_a_conversion_error() {
    let payload = FILL.replace("3.50", "3.501");
    assert_eq!(
        Decoder::new(2).decode_text("fills:5", &payload),
        Err(DecodeError::ConversionError { field: Field::Price })
    );
    assert_eq!(Field::Price.name(), "price");
    assert!(Decoder::new(3).decode_text("fills:5", &payload).is_ok());
}

#[test]
fn order_is_decoded() {
    let payload = r#"{"market_id": "5", "side": "ask", "market_order_id": 18446744073709551615,
        "user_address": "0xdef", "custodian_id": 3, "event_type": "place", "size": 7,
        "price": "0.25", "time": "2023-05-01T12:00:00.5+00:00"}"#;
    assert_eq!(
        Decoder::new(2).decode_text("orders:5", payload),
        Ok(Update::Maker(MakerEvent {
            market_id: 5,
            side: Side::Ask,
            market_order_id: u64::MAX,
            user_address: "0xdef".to_string(),
            custodian_id: Some(3),
            event_type: MakerEventType::Place,
            size: 700,
            price: 25,
            time: Timestamp { seconds: 1682942400, nanos: 500_000_000 },
        }))
    );
    for (word, event_type) in [
        ("cancel", MakerEventType::Cancel),
        ("change", MakerEventType::Change),
        ("evict", MakerEventType::Evict),
        ("place", MakerEventType::Place),
    ] {
        let payload = payload.replace("place", word);
        match Decoder::new(2).decode_text("orders:5", &payload) {
            Ok(Update::Maker(event)) => assert_eq!(event.event_type, event_type),
            other => panic!("{:?}", other),
        }
    }
}

#[test]
fn price_level_is_decoded() {
    let payload = r#"{"market_id": 9, "side": "ask", "price": "101", "size": "0.5",
        "time": "1970-01-01T00:00:01Z"}"#;
    assert_eq!(
        Decoder::new(1).decode_text("price_levels:9", payload),
        Ok(Update::PriceLevel(PriceLevel {
            market_id: 9,
            side: Side::Ask,
            price: 1010,
            size: 5,
            time: Timestamp { seconds: 1, nanos: 0 },
        }))
    );
}

#[test]
fn time_zone_is_taken_into_account() {
    let payload = FILL.replace("2023-05-01T12:00:00Z", "2023-05-01T14:00:00+02:00");
    match Decoder::new(2).decode_text("fills:5", &payload) {
        Ok(Update::Taker(event)) => assert_eq!(event.time, noon()),
        other => panic!("{:?}", other),
    }
}

#[test]
fn record_of_another_market_is_inconsistent() {
    assert_eq!(Decoder::new(2).decode_text("fills:6", FILL), Err(DecodeError::Inconsistent));
}

#[test]
fn unknown_channel_is_refused() {
    assert_eq!(Decoder::new(2).decode_text("trades:5", FILL), Err(DecodeError::Channel));
    assert_eq!(Decoder::new(2).decode_text("fills:05", FILL), Err(DecodeError::Channel));
    assert_eq!(Decoder::new(2).decode_text("", FILL), Err(DecodeError::Channel));
}

#[test]
fn payload_that_is_no_record_is_refused() {
    for payload in ["", "not json", "[1, 2]", "5", "\"text\"", "null", "{\"market_id\": 5", "{} {}"] {
        assert_eq!(Decoder::new(2).decode_text("fills:5", payload), Err(DecodeError::Payload), "{}", payload);
    }
}

#[test]
fn missing_and_malformed_fields_are_named() {
    let decoder = Decoder::new(2);
    assert_eq!(
        decoder.decode_text("fills:5", "{}"),
        Err(DecodeError::Field { field: Field::MarketId })
    );
    assert_eq!(
        decoder.decode_text("fills:5", &FILL.replace("\"bid\"", "\"buy\"")),
        Err(DecodeError::Field { field: Field::Side })
    );
    assert_eq!(
        decoder.decode_text("fills:5", &FILL.replace("\"bid\"", "1")),
        Err(DecodeError::Field { field: Field::Side })
    );
    assert_eq!(
        decoder.decode_text("fills:5", &FILL.replace("\"maker\"", "\"taker\"")),
        Err(DecodeError::Field { field: Field::Maker })
    );
    assert_eq!(
        decoder.decode_text("fills:5", &FILL.replace("\"12.0\"", "\"twelve\"")),
        Err(DecodeError::Field { field: Field::Size })
    );
    assert_eq!(
        decoder.decode_text("fills:5", &FILL.replace("\"12.0\"", "[12]")),
        Err(DecodeError::Field { field: Field::Size })
    );
    assert_eq!(
        decoder.decode_text("fills:5", &FILL.replace("\"12.0\"", "true")),
        Err(DecodeError::Field { field: Field::Size })
    );
    assert_eq!(
        decoder.decode_text("fills:5", &FILL.replace("2023-05-01T12:00:00Z", "yesterday")),
        Err(DecodeError::Field { field: Field::Time })
    );
    assert_eq!(
        decoder.decode_text("fills:5", &FILL.replace("null", "\"none\"")),
        Err(DecodeError::Field { field: Field::CustodianId })
    );
    assert_eq!(
        decoder.decode_text("orders:5", FILL),
        Err(DecodeError::Field { field: Field::UserAddress })
    );
}

#[test]
fn numbers_outside_the_domain_are_conversion_errors() {
    let decoder = Decoder::new(2);
    assert_eq!(
        decoder.decode_text("fills:5", &FILL.replace("\"12.0\"", "-12")),
        Err(DecodeError::ConversionError { field: Field::Size })
    );
    assert_eq!(
        decoder.decode_text("fills:5", &FILL.replace("\"12.0\"", "184467440737095516.16")),
        Err(DecodeError::ConversionError { field: Field::Size })
    );
    assert_eq!(
        decoder.decode_text("fills:5", &FILL.replace("\"12.0\"", "184467440737095516.15")),
        Ok(Update::Taker(TakerEvent {
            market_id: 5,
            side: Side::Bid,
            market_order_id: 17,
            maker: "0xabc".to_string(),
            custodian_id: None,
            size: u64::MAX,
            price: 350,
            time: noon(),
        }))
    );
    assert_eq!(
        decoder.decode_text("fills:5", &FILL.replace(" 17,", " 17.5,")),
        Err(DecodeError::ConversionError { field: Field::MarketOrderId })
    );
    assert_eq!(
        decoder.decode_text("fills:5", &FILL.replace("null", "-1")),
        Err(DecodeError::ConversionError { field: Field::CustodianId })
    );
    assert_eq!(
        decoder.decode_text("fills:5", &FILL.replace(": 5,", ": 5.5,")),
        Err(DecodeError::ConversionError { field: Field::MarketId })
    );
}

#[test]
fn first_failing_field_wins() {
    let payload = FILL.replace("\"bid\"", "\"buy\"").replace("3.50", "3.501");
    assert_eq!(
        Decoder::new(2).decode_text("fills:5", &payload),
        Err(DecodeError::Field { field: Field::Side })
    );
    let payload = FILL.replace("12.0", "12.001").replace("3.50", "3.501");
    assert_eq!(
        Decoder::new(2).decode_text("fills:6", &payload),
        Err(DecodeError::ConversionError { field: Field::Size })
    );
}

#[test]
fn absent_custodian_is_no_custodian() {
    let payload = FILL.replace("\"custodian_id\": null,", "");
    match Decoder::new(2).decode_text("fills:5", &payload) {
        Ok(Update::Taker(event)) => assert_eq!(event.custodian_id, None),
        other => panic!("{:?}", other),
    }
    let payload = FILL.replace("null", "0");
    match Decoder::new(2).decode_text("fills:5", &payload) {
        Ok(Update::Taker(event)) => assert_eq!(event.custodian_id, Some(0)),
        other => panic!("{:?}", other),
    }
}

#[test]
fn raw_payload_must_be_text() {
    let decoder = Decoder::new(2);
    assert_eq!(decoder.decode("fills:5", FILL.as_bytes()), decoder.decode_text("fills:5", FILL));
    assert!(decoder.decode("fills:5", FILL.as_bytes()).is_ok());
    assert_eq!(decoder.decode("fills:5", &[0x7b, 0xff, 0x7d]), Err(DecodeError::Payload));
    assert_eq!(decoder.decode("fills:5", &[0xc3]), Err(DecodeError::Payload));
    assert_eq!(decoder.decode("nothing", &[0xff]), Err(DecodeError::Channel));
    assert_eq!(decoder.decode("fills:5", b""), Err(DecodeError::Payload));
    let accented = FILL.replace("0xabc", "0xabc\\u00e9\u{e9}");
    match decoder.decode("fills:5", accented.as_bytes()) {
        Ok(Update::Taker(event)) => assert_eq!(event.maker, "0xabc\u{e9}\u{e9}"),
        other => panic!("{:?}", other),
    }
}

#[test]
fn records_decode_without_a_payload() {
    let record = vec![
        Entry { key: "time".to_string(), value: Token::Text("1970-01-01T00:00:00Z".to_string()) },
        Entry { key: "size".to_string(), value: Token::Number("4".to_string()) },
        Entry { key: "price".to_string(), value: Token::Text("2.5".to_string()) },
        Entry { key: "side".to_string(), value: Token::Text("bid".to_string()) },
        Entry { key: "market_id".to_string(), value: Token::Number("3".to_string()) },
        Entry { key: "extra".to_string(), value: Token::Nested },
    ];
    let channel = Channel { kind: ChannelKind::PriceLevels, market_id: 3 };
    assert_eq!(
        Decoder::new(1).decode_record(&record, channel),
        Ok(Update::PriceLevel(PriceLevel {
            market_id: 3,
            side: Side::Bid,
            price: 25,
            size: 40,
            time: Timestamp { seconds: 0, nanos: 0 },
        }))
    );
    assert_eq!(Decoder::find(&record, Field::Side), Some(&Token::Text("bid".to_string())));
    assert_eq!(Decoder::find(&record, Field::Maker), None);
    let other = Channel { kind: ChannelKind::PriceLevels, market_id: 4 };
    assert_eq!(Decoder::new(1).decode_record(&record, other), Err(DecodeError::Inconsistent));
}

fn level_record(market: &str, price: &str) -> Vec<Entry> {
    vec![
        Entry { key: "market_id".to_string(), value: Token::Number(market.to_string()) },
        Entry { key: "side".to_string(), value: Token::Text("ask".to_string()) },
        Entry { key: "price".to_string(), value: Token::Text(price.to_string()) },
        Entry { key: "size".to_string(), value: Token::Number("4".to_string()) },
        Entry { key: "time".to_string(), value: Token::Text("1970-01-01T00:00:00Z".to_string()) },
    ]
}

#[test]
fn reading_keeps_the_decimals() {
    match Decoder::read(&level_record("3", "2.50"), ChannelKind::PriceLevels) {
        Ok(Row::PriceLevel(row)) => {
            assert_eq!(row.price.digits(), &vec![2u8, 5, 0]);
            assert_eq!(row.price.scale(), 2);
            assert!(!row.price.is_negative());
            assert_eq!(row.side, Side::Ask);
            assert_eq!(row.time, Timestamp { seconds: 0, nanos: 0 });
        }
        other => panic!("{:?}", other),
    }
    assert!(matches!(
        Decoder::read(&level_record("-3", "2.501"), ChannelKind::PriceLevels),
        Ok(Row::PriceLevel(_))
    ));
    assert!(matches!(
        Decoder::read(&level_record("3", "2.50"), ChannelKind::Fills),
        Err(DecodeError::Field { field: Field::MarketOrderId })
    ));
    assert!(matches!(
        Decoder::read(&level_record("3", "2.50"), ChannelKind::Orders),
        Err(DecodeError::Field { field: Field::MarketOrderId })
    ));
    assert!(matches!(
        Decoder::read(&level_record("three", "2.50"), ChannelKind::PriceLevels),
        Err(DecodeError::Field { field: Field::MarketId })
    ));
}

#[test]
fn normalising_holds_the_row_against_its_channel() {
    let decoder = Decoder::new(2);
    let channel = Channel { kind: ChannelKind::PriceLevels, market_id: 3 };
    let row = || Decoder::read(&level_record("3", "2.50"), ChannelKind::PriceLevels).expect("a row");
    assert_eq!(
        decoder.normalise(row(), channel),
        Ok(Update::PriceLevel(PriceLevel {
            market_id: 3,
            side: Side::Ask,
            price: 250,
            size: 400,
            time: Timestamp { seconds: 0, nanos: 0 },
        }))
    );
    assert_eq!(
        decoder.normalise(row(), Channel { kind: ChannelKind::PriceLevels, market_id: 4 }),
        Err(DecodeError::Inconsistent)
    );
    assert_eq!(
        decoder.normalise(row(), Channel { kind: ChannelKind::Fills, market_id: 3 }),
        Err(DecodeError::Inconsistent)
    );
    assert_eq!(
        Decoder::new(1).normalise(
            Decoder::read(&level_record("3", "2.55"), ChannelKind::PriceLevels).expect("a row"),
            channel
        ),
        Err(DecodeError::ConversionError { field: Field::Price })
    );
}

#[test]
fn malformed_fields_come_before_numbers_outside_the_domain() {
    let payload = FILL.replace(": 5,", ": 5.5,").replace("2023-05-01T12:00:00Z", "noon");
    assert_eq!(
        Decoder::new(2).decode_text("fills:5", &payload),
        Err(DecodeError::Field { field: Field::Time })
    );
    let payload = FILL.replace(": 5,", ": 5.5,").replace("3.50", "3.501");
    assert_eq!(
        Decoder::new(2).decode_text("fills:5", &payload),
        Err(DecodeError::ConversionError { field: Field::MarketId })
    );
}
