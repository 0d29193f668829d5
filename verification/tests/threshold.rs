use telemetry_node::mqtt::ParseError;
use telemetry_node::threshold::ThresholdStore;
use telemetry_node::threshold::DEFAULT_THRESHOLD;

#[test]
fn store_holds_the_default_until_set() {
    assert_eq!(DEFAULT_THRESHOLD, 10);
    let store = ThresholdStore::new();
    assert_eq!(store.get(), 10);
    assert_eq!(store.get(), 10);
}

#[test]
fn last_write_wins() {
    let mut store = ThresholdStore::new();
    store.set(5);
    store.set(9);
    assert_eq!(store.get(), 9);
}

#[test]
fn any_value_is_accepted() {
    let mut store = ThresholdStore::new();
    store.set(0);
    assert_eq!(store.get(), 0);
    store.set(u32::MAX);
    assert_eq!(store.get(), u32::MAX);
}

#[test]
fn writer_and_reader_share_one_store() {
    let store = std::sync::Mutex::new(ThresholdStore::new());
    let writer = &store;
    let reader = &store;
    writer.lock().unwrap().set(42);
    assert_eq!(reader.lock().unwrap().get(), 42);
    writer.lock().unwrap().set(43);
    writer.lock().unwrap().set(44);
    assert_eq!(reader.lock().unwrap().get(), 44);
}

#[test]
fn stores_are_independent() {
    let mut first = ThresholdStore::new();
    let second = ThresholdStore::new();
    first.set(1);
    assert_eq!(second.get(), DEFAULT_THRESHOLD);
}

#[test]
fn update_message_overwrites_the_threshold() {
    let mut store = ThresholdStore::new();
    assert_eq!(store.on_message(Some("threshold"), b"37"), Ok(Some(37)));
    assert_eq!(store.get(), 37);
    assert_eq!(store.on_message(Some("threshold"), b"+4"), Ok(Some(4)));
    assert_eq!(store.get(), 4);
}

#[test]
fn other_messages_leave_the_threshold_alone() {
    let mut store = ThresholdStore::new();
    store.set(21);
    assert_eq!(store.on_message(Some("status"), b"37"), Ok(None));
    assert_eq!(store.on_message(None, b"37"), Ok(None));
    assert_eq!(store.get(), 21);
}

#[test]
fn malformed_update_leaves_the_threshold_alone() {
    let mut store = ThresholdStore::new();
    store.set(21);
    assert_eq!(store.on_message(Some("threshold"), b"warm"), Err(ParseError::InvalidDigit));
    assert_eq!(store.on_message(Some("threshold"), b""), Err(ParseError::Empty));
    assert_eq!(store.on_message(Some("threshold"), b"4294967296"), Err(ParseError::Overflow));
    assert_eq!(store.get(), 21);
}
