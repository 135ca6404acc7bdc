use mdfeed::registry::SubscriptionRegistry;

#[test]
fn subscribe_twice_single_entry() {
    let mut reg = SubscriptionRegistry::new();
    let sym = "binance:btcusdt".to_string();
    reg.insert(&sym, 42);
    reg.insert(&sym, 42);
    assert_eq!(reg.len(), 1);
    assert!(reg.contains(&sym));
    assert_eq!(reg.get_symbol_by_index(42), Some(sym.clone()));
}

#[test]
fn insert_duplicate_keeps_first_index() {
    let mut reg = SubscriptionRegistry::new();
    let sym = "binance:ethusdt".to_string();
    reg.insert(&sym, 7);
    reg.insert(&sym, 9);
    assert_eq!(reg.len(), 1);
    assert_eq!(reg.get_symbol_by_index(7), Some(sym.clone()));
    assert_eq!(reg.get_symbol_by_index(9), None);
}

#[test]
fn unsubscribe_unregistered_noop() {
    let mut reg = SubscriptionRegistry::new();
    reg.insert(&"binance:btcusdt".to_string(), 1);
    let removed = reg.remove(&"binance:dogeusdt".to_string());
    assert!(!removed);
    assert_eq!(reg.len(), 1);
    assert!(reg.contains(&"binance:btcusdt".to_string()));
}

#[test]
fn unsubscribe_registered_removes() {
    let mut reg = SubscriptionRegistry::new();
    let a = "binance:btcusdt".to_string();
    let b = "binance:ethusdt".to_string();
    reg.insert(&a, 1);
    reg.insert(&b, 2);
    let removed = reg.remove(&a);
    assert!(removed);
    assert_eq!(reg.len(), 1);
    assert!(!reg.contains(&a));
    assert!(reg.contains(&b));
    assert_eq!(reg.get_symbol_by_index(1), None);
    assert_eq!(reg.get_symbol_by_index(2), Some(b.clone()));
}

#[test]
fn symbols_in_registration_order() {
    let mut reg = SubscriptionRegistry::new();
    let a = "binance-futures:btcusdt".to_string();
    let b = "binance:btcusdt".to_string();
    let c = "bybit:btcusdt".to_string();
    reg.insert(&a, 3);
    reg.insert(&b, 1);
    reg.insert(&c, 2);
    let syms = reg.symbols();
    assert_eq!(syms, vec![a, b, c]);
}

#[test]
fn get_symbol_by_index_unknown() {
    let mut reg = SubscriptionRegistry::new();
    reg.insert(&"binance:btcusdt".to_string(), 42);
    assert_eq!(reg.get_symbol_by_index(41), None);
}
