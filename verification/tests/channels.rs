use market_feed::channel::Channel;
use market_feed::channel::ChannelKind;

#[test]
fn names_are_kind_colon_market() {
    assert_eq!(Channel { kind: ChannelKind::Orders, market_id: 5 }.name(), "orders:5");
    assert_eq!(Channel { kind: ChannelKind::Fills, market_id: 5 }.name(), "fills:5");
    assert_eq!(Channel { kind: ChannelKind::PriceLevels, market_id: 5 }.name(), "price_levels:5");
    assert_eq!(Channel { kind: ChannelKind::Orders, market_id: 0 }.name(), "orders:0");
    assert_eq!(Channel { kind: ChannelKind::Fills, market_id: 10 }.name(), "fills:10");
    assert_eq!(Channel { kind: ChannelKind::Fills, market_id: 1234567890 }.name(), "fills:1234567890");
    assert_eq!(
        Channel { kind: ChannelKind::PriceLevels, market_id: u64::MAX }.name(),
        "price_levels:18446744073709551615"
    );
}

#[test]
fn names_parse_back() {
    assert_eq!(Channel::parse("orders:5"), Some(Channel { kind: ChannelKind::Orders, market_id: 5 }));
    assert_eq!(Channel::parse("fills:0"), Some(Channel { kind: ChannelKind::Fills, market_id: 0 }));
    assert_eq!(
        Channel::parse("price_levels:18446744073709551615"),
        Some(Channel { kind: ChannelKind::PriceLevels, market_id: u64::MAX })
    );
    for market_id in [0u64, 1, 9, 10, 11, 99, 100, 101, 65535, 1 << 40, u64::MAX - 1, u64::MAX] {
        for kind in [ChannelKind::Orders, ChannelKind::Fills, ChannelKind::PriceLevels] {
            let channel = Channel { kind, market_id };
            assert_eq!(Channel::parse(&channel.name()), Some(channel));
        }
    }
}

#[test]
fn other_names_are_refused() {
    for name in [
        "",
        ":",
        "orders",
        "orders:",
        ":5",
        "5",
        "orders:05",
        "orders:+5",
        "orders:-5",
        "orders: 5",
        "orders:5 ",
        "orders:5x",
        "orders::5",
        "order:5",
        "Orders:5",
        "trades:5",
        "price-levels:5",
        "fills:18446744073709551616",
        "fills:99999999999999999999",
        "fills:000000000000000000005",
        "fills:1234567890123456789012345678901234567890",
        "fills:٥",
        "fills:5.0",
    ] {
        assert_eq!(Channel::parse(name), None, "{}", name);
    }
}

#[test]
fn kinds_in_order() {
    assert_eq!(ChannelKind::at(0), Some(ChannelKind::Orders));
    assert_eq!(ChannelKind::at(1), Some(ChannelKind::Fills));
    assert_eq!(ChannelKind::at(2), Some(ChannelKind::PriceLevels));
    assert_eq!(ChannelKind::at(3), None);
    assert_eq!(ChannelKind::at(usize::MAX), None);
    assert_eq!(ChannelKind::Orders.prefix(), "orders");
    assert_eq!(ChannelKind::Fills.prefix(), "fills");
    assert_eq!(ChannelKind::PriceLevels.prefix(), "price_levels");
}
