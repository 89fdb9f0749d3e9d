use perp_cycle::channels::OrderBus;
use perp_cycle::channels::PriceChannel;
use perp_cycle::channels::RecvOutcome;
use perp_cycle::models::BookTickerData;
use perp_cycle::models::OrderUpdateData;

fn snapshot(ask: &str, time: u64) -> BookTickerData {
    BookTickerData {
        event_type: "bookTicker".to_string(),
        event_time: time,
        symbol: "APT_USDC_PERP".to_string(),
        best_ask_price: ask.to_string(),
        best_ask_qty: "1".to_string(),
        best_bid_price: "1.0".to_string(),
        best_bid_qty: "1".to_string(),
        engine_timestamp: time,
    }
}

fn event(id: &str) -> OrderUpdateData {
    OrderUpdateData {
        event_type: "orderAccepted".to_string(),
        symbol: "APT_USDC_PERP".to_string(),
        order_id: id.to_string(),
        order_status: "New".to_string(),
        fill_quantity: None,
        executed_quantity: None,
    }
}

#[test]
fn price_reader_blocks_until_first_publish() {
    let mut ch = PriceChannel::new();
    let mut r = ch.reader();
    assert!(ch.try_wait(&mut r).is_none());
    ch.publish(snapshot("3.19", 1));
    let got = ch.try_wait(&mut r).unwrap();
    assert_eq!(got.best_ask_price, "3.19");
}

#[test]
fn price_no_spurious_wake_without_publish() {
    // Two waits in succession with no intervening publish: the second
    // blocks.
    let mut ch = PriceChannel::new();
    let mut r = ch.reader();
    ch.publish(snapshot("3.19", 1));
    assert!(ch.try_wait(&mut r).is_some());
    assert!(ch.try_wait(&mut r).is_none());
}

#[test]
fn price_no_spurious_wake_on_identical_value() {
    let mut ch = PriceChannel::new();
    let mut r = ch.reader();
    ch.publish(snapshot("3.19", 1));
    assert!(ch.try_wait(&mut r).is_some());
    // Re-publishing an identical snapshot wakes nobody.
    ch.publish(snapshot("3.19", 1));
    assert!(ch.try_wait(&mut r).is_none());
    // A genuinely new snapshot does.
    ch.publish(snapshot("3.20", 2));
    let got = ch.try_wait(&mut r).unwrap();
    assert_eq!(got.best_ask_price, "3.20");
}

#[test]
fn price_reader_sees_only_latest() {
    let mut ch = PriceChannel::new();
    let mut r = ch.reader();
    ch.publish(snapshot("1.0", 1));
    ch.publish(snapshot("2.0", 2));
    ch.publish(snapshot("3.0", 3));
    let got = ch.try_wait(&mut r).unwrap();
    assert_eq!(got.best_ask_price, "3.0");
    assert!(ch.try_wait(&mut r).is_none());
}

#[test]
fn bus_subscriber_misses_earlier_events() {
    // An event published before any subscriber exists is never delivered
    // to a subscriber created afterwards.
    let mut bus = OrderBus::new(32);
    bus.publish(event("before"));
    let mut r = bus.subscribe();
    assert!(matches!(bus.try_recv(&mut r), RecvOutcome::Empty));
    bus.publish(event("after"));
    match bus.try_recv(&mut r) {
        RecvOutcome::Event(e) => assert_eq!(e.order_id, "after"),
        _ => panic!("expected the later event"),
    }
    assert!(matches!(bus.try_recv(&mut r), RecvOutcome::Empty));
}

#[test]
fn bus_delivers_in_order_to_current_subscriber() {
    let mut bus = OrderBus::new(32);
    let mut r = bus.subscribe();
    bus.publish(event("a"));
    bus.publish(event("b"));
    match bus.try_recv(&mut r) {
        RecvOutcome::Event(e) => assert_eq!(e.order_id, "a"),
        _ => panic!("expected a"),
    }
    match bus.try_recv(&mut r) {
        RecvOutcome::Event(e) => assert_eq!(e.order_id, "b"),
        _ => panic!("expected b"),
    }
}

#[test]
fn bus_slow_reader_lags_and_skips() {
    let mut bus = OrderBus::new(2);
    let mut r = bus.subscribe();
    bus.publish(event("1"));
    bus.publish(event("2"));
    bus.publish(event("3"));
    bus.publish(event("4"));
    match bus.try_recv(&mut r) {
        RecvOutcome::Lagged(n) => assert_eq!(n, 2),
        _ => panic!("expected a lag report"),
    }
    match bus.try_recv(&mut r) {
        RecvOutcome::Event(e) => assert_eq!(e.order_id, "3"),
        _ => panic!("expected the oldest retained event"),
    }
}
