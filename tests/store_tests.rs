use txmetrics::store::{Transaction, TransactionStore};

fn tx(id: u64, operation: &str, value: f64) -> Transaction {
    Transaction { operation: operation.to_string(), id, value_bits: value.to_bits() }
}

#[test]
fn insert_then_get_returns_record() {
    let mut store = TransactionStore::new();
    assert!(store.insert(tx(1, "buy", 10.5)));
    let found = store.get(1).expect("record 1 is stored");
    assert_eq!(found.id, 1);
    assert_eq!(found.operation, "buy");
    assert_eq!(f64::from_bits(found.value_bits), 10.5);
    assert!(store.get(2).is_none());
}

#[test]
fn duplicate_id_keeps_first_record() {
    let mut store = TransactionStore::new();
    assert!(store.insert(tx(7, "buy", 1.0)));
    assert!(!store.insert(tx(7, "sell", 2.0)));
    let found = store.get(7).unwrap();
    assert_eq!(found.operation, "buy");
    assert_eq!(f64::from_bits(found.value_bits), 1.0);
    assert_eq!(store.len(), 1);
}

#[test]
fn every_record_sits_under_its_id() {
    let mut store = TransactionStore::new();
    let ids: [u64; 6] = [3, 0, u64::MAX, 3, 42, 0];
    for (n, id) in ids.iter().enumerate() {
        store.insert(tx(*id, "op", n as f64));
    }
    assert_eq!(store.len(), 4);
    for id in ids.iter() {
        assert_eq!(store.get(*id).unwrap().id, *id);
    }
}

#[test]
fn empty_store_finds_nothing() {
    let store = TransactionStore::new();
    assert!(store.get(0).is_none());
    assert_eq!(store.len(), 0);
}
