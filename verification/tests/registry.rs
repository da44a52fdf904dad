use market_feed::decimal::Decimal;
use market_feed::error::StoreError;
use market_feed::registry::load_markets;
use market_feed::registry::MarketSet;

fn dec(text: &str) -> Decimal {
    Decimal::parse(text).expect("a decimal")
}

#[test]
fn rows_become_a_set() {
    let rows = vec![dec("5"), dec("7"), dec("5.0"), dec("12")];
    let markets = load_markets(&rows).expect("markets");
    assert_eq!(markets.len(), 3);
    assert_eq!(markets.ids(), &vec![5u64, 7, 12]);
    assert!(markets.contains(5));
    assert!(markets.contains(7));
    assert!(markets.contains(12));
    assert!(!markets.contains(6));
    assert!(!markets.is_empty());
}

#[test]
fn no_rows_give_the_empty_set() {
    let markets = load_markets(&Vec::new()).expect("markets");
    assert!(markets.is_empty());
    assert_eq!(markets.len(), 0);
    assert!(!markets.contains(0));
}

#[test]
fn first_bad_row_fails_the_load() {
    let rows = vec![dec("5"), dec("7.5"), dec("-1")];
    assert_eq!(load_markets(&rows).err(), Some(StoreError::MarketId { row: 1 }));
    let rows = vec![dec("18446744073709551616")];
    assert_eq!(load_markets(&rows).err(), Some(StoreError::MarketId { row: 0 }));
    let rows = vec![dec("1"), dec("2"), dec("-3")];
    assert_eq!(load_markets(&rows).err(), Some(StoreError::MarketId { row: 2 }));
}

#[test]
fn sets_hold_each_id_once() {
    let markets = MarketSet::from_ids(&vec![3, 1, 3, 2, 1]);
    assert_eq!(markets.ids(), &vec![3u64, 1, 2]);
    assert_eq!(markets.len(), 3);
    let empty = MarketSet::new();
    assert!(empty.is_empty());
    assert_eq!(empty.ids(), &Vec::<u64>::new());
}
