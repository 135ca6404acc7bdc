use mdfeed::protocol::{apply_subscribe_response, parse_index, unsubscribe_payload,
    SubscribeOutcome};
use mdfeed::registry::SubscriptionRegistry;

#[test]
fn parse_index_decimal() {
    assert_eq!(parse_index(b"42"), Some(42));
    assert_eq!(parse_index(b"0"), Some(0));
    assert_eq!(parse_index(b"1"), Some(1));
    assert_eq!(parse_index(b"4294967295"), Some(u32::MAX));
}

#[test]
fn parse_index_rejects_empty() {
    assert_eq!(parse_index(b""), None);
}

#[test]
fn parse_index_rejects_non_digits() {
    assert_eq!(parse_index(b"4x2"), None);
    assert_eq!(parse_index(b"-1"), None);
    assert_eq!(parse_index(b"error: unknown symbol"), None);
    assert_eq!(parse_index(b"42 "), None);
}

#[test]
fn parse_index_rejects_overflow() {
    assert_eq!(parse_index(b"4294967296"), None);
    assert_eq!(parse_index(b"99999999999999999999"), None);
}

#[test]
fn unsubscribe_payload_prefixes_marker() {
    let payload = unsubscribe_payload(&"binance:btcusdt".to_string());
    assert_eq!(payload, b"-binance:btcusdt".to_vec());
}

#[test]
fn subscribe_response_accepted() {
    let mut reg = SubscriptionRegistry::new();
    let sym = "binance:btcusdt".to_string();
    let outcome = apply_subscribe_response(&mut reg, &sym, b"42");
    assert_eq!(outcome, SubscribeOutcome::Subscribed(42));
    assert_eq!(reg.len(), 1);
    assert_eq!(reg.get_symbol_by_index(42), Some(sym.clone()));
}

#[test]
fn subscribe_response_duplicate_is_noop() {
    let mut reg = SubscriptionRegistry::new();
    let sym = "binance:btcusdt".to_string();
    assert_eq!(apply_subscribe_response(&mut reg, &sym, b"42"), SubscribeOutcome::Subscribed(42));
    assert_eq!(
        apply_subscribe_response(&mut reg, &sym, b"43"),
        SubscribeOutcome::AlreadyRegistered(43)
    );
    assert_eq!(reg.len(), 1);
    assert_eq!(reg.get_symbol_by_index(42), Some(sym.clone()));
    assert_eq!(reg.get_symbol_by_index(43), None);
}

#[test]
fn subscribe_response_rejected_leaves_registry() {
    let mut reg = SubscriptionRegistry::new();
    let sym = "binance:nosuch".to_string();
    let outcome = apply_subscribe_response(&mut reg, &sym, b"no such symbol");
    assert_eq!(outcome, SubscribeOutcome::Rejected);
    assert_eq!(reg.len(), 0);
    assert!(!reg.contains(&sym));
}
