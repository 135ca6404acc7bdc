use mdfeed::client::{route_datagram, RouteOutcome};
use mdfeed::dispatch::{dispatch_tick, TickClass};
use mdfeed::protocol::{apply_subscribe_response, SubscribeOutcome};
use mdfeed::registry::SubscriptionRegistry;
use mdfeed::wire::{collect_asks, collect_bids, DecodeError};

fn header(msg_type: i32, index: u32, local_ns: i64) -> Vec<u8> {
    let mut b = Vec::new();
    b.extend_from_slice(&msg_type.to_le_bytes());
    b.extend_from_slice(&index.to_le_bytes());
    b.extend_from_slice(&10i64.to_le_bytes());
    b.extend_from_slice(&20i64.to_le_bytes());
    b.extend_from_slice(&local_ns.to_le_bytes());
    b.extend_from_slice(&30i64.to_le_bytes());
    b
}

#[test]
fn subscribe_then_quote_dispatches_bid() {
    let mut reg = SubscriptionRegistry::new();
    let sym = "binance:btcusdt".to_string();
    let outcome = apply_subscribe_response(&mut reg, &sym, b"42");
    assert_eq!(outcome, SubscribeOutcome::Subscribed(42));
    assert_eq!(reg.len(), 1);
    assert_eq!(reg.get_symbol_by_index(42), Some(sym.clone()));

    let mut buf = header(1, 42, 500);
    buf.extend_from_slice(&65000.5f64.to_bits().to_le_bytes());
    buf.extend_from_slice(&0.01f64.to_bits().to_le_bytes());

    match route_datagram(&reg, &buf) {
        RouteOutcome::Tick { symbol, msg } => {
            assert_eq!(symbol, sym);
            assert_eq!(msg.index, 42);
            let ev = dispatch_tick(&msg, 1_500).expect("quote should dispatch");
            assert_eq!(ev.class, TickClass::QuoteBid);
            assert_eq!(f64::from_bits(ev.price_bits), 65000.5);
            assert_eq!(f64::from_bits(ev.size_bits), 0.01);
            assert_eq!(ev.latency_ns, 1_000);
        }
        other => panic!("expected tick route, got {:?}", other),
    }
}

#[test]
fn depth_datagram_routes_with_exact_levels() {
    let mut reg = SubscriptionRegistry::new();
    let sym = "binance:ethusdt".to_string();
    reg.insert(&sym, 9);

    let mut buf = header(2, 9, 0);
    buf.extend_from_slice(&0u32.to_le_bytes());
    buf.extend_from_slice(&2u32.to_le_bytes());
    buf.extend_from_slice(&0u32.to_le_bytes());
    buf.extend_from_slice(&1u32.to_le_bytes());
    for (p, s) in [(3500.5, 1.0), (3501.0, 2.0), (3499.5, 4.0)] {
        buf.extend_from_slice(&f64::to_bits(p).to_le_bytes());
        buf.extend_from_slice(&f64::to_bits(s).to_le_bytes());
    }

    match route_datagram(&reg, &buf) {
        RouteOutcome::Depth { symbol, msg } => {
            assert_eq!(symbol, sym);
            assert_eq!(msg.asks_len, 2);
            assert_eq!(msg.bids_len, 1);
            let asks = collect_asks(&buf);
            let bids = collect_bids(&buf);
            assert_eq!(asks.len(), 2);
            assert_eq!(bids.len(), 1);
            assert_eq!(f64::from_bits(asks[0].price_bits), 3500.5);
            assert_eq!(f64::from_bits(asks[0].size_bits), 1.0);
            assert_eq!(f64::from_bits(asks[1].price_bits), 3501.0);
            assert_eq!(f64::from_bits(asks[1].size_bits), 2.0);
            assert_eq!(f64::from_bits(bids[0].price_bits), 3499.5);
            assert_eq!(f64::from_bits(bids[0].size_bits), 4.0);
        }
        other => panic!("expected depth route, got {:?}", other),
    }
}

#[test]
fn unknown_index_is_dropped() {
    let mut reg = SubscriptionRegistry::new();
    reg.insert(&"binance:btcusdt".to_string(), 42);
    let mut buf = header(1, 41, 0);
    buf.extend_from_slice(&[0u8; 16]);
    match route_datagram(&reg, &buf) {
        RouteOutcome::Unknown => {}
        other => panic!("expected silent drop, got {:?}", other),
    }
}

#[test]
fn malformed_datagram_is_dropped() {
    let reg = SubscriptionRegistry::new();
    match route_datagram(&reg, &[1, 2, 3]) {
        RouteOutcome::Malformed(e) => assert_eq!(e, DecodeError::TooShort),
        other => panic!("expected malformed route, got {:?}", other),
    }
}
