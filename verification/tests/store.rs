use sso::store::{BatchOp, Store};

#[test]
fn empty_store() {
    let store = Store::new("/tmp/sso-store");
    assert_eq!(store.location(), "/tmp/sso-store");
    assert_eq!(store.get("user_name"), None);
    assert_eq!(store.get(""), None);
}

#[test]
fn put_get_del() {
    let mut store = Store::new("");
    store.put("a", "1");
    store.put("b", "2");
    assert_eq!(store.get("a"), Some("1".to_string()));
    assert_eq!(store.get("b"), Some("2".to_string()));
    assert_eq!(store.get("c"), None);
    store.put("a", "3");
    assert_eq!(store.get("a"), Some("3".to_string()));
    assert_eq!(store.get("b"), Some("2".to_string()));
    store.del("a");
    assert_eq!(store.get("a"), None);
    assert_eq!(store.get("b"), Some("2".to_string()));
    store.del("a");
    store.del("never there");
    assert_eq!(store.get("b"), Some("2".to_string()));
    store.put("", "empty key");
    assert_eq!(store.get(""), Some("empty key".to_string()));
}

#[test]
fn batches_apply_in_order() {
    let mut store = Store::new("");
    store.put("old", "x");
    let batch = store
        .batch()
        .put("key1", "value1")
        .put("key2", "value2")
        .del("old")
        .put("key1", "value3")
        .del("key2")
        .put("key3", "value3");
    assert_eq!(batch.wb.len(), 6);
    match &batch.wb[2] {
        BatchOp::Del { key } => assert_eq!(key, "old"),
        BatchOp::Put { .. } => panic!("the third operation is a deletion"),
    }
    // Nothing takes effect before the commit.
    assert_eq!(store.get("key1"), None);
    assert_eq!(store.get("old"), Some("x".to_string()));
    batch.commit(&mut store);
    assert_eq!(store.get("key1"), Some("value3".to_string()));
    assert_eq!(store.get("key2"), None);
    assert_eq!(store.get("key3"), Some("value3".to_string()));
    assert_eq!(store.get("old"), None);
}

#[test]
fn commit_through_the_store() {
    let mut store = Store::new("");
    let empty = store.batch();
    assert_eq!(empty.wb.len(), 0);
    store.commit(empty);
    assert_eq!(store.get("a"), None);
    let batch = store.batch().put("a", "1").del("a").put("b", "2");
    store.commit(batch);
    assert_eq!(store.get("a"), None);
    assert_eq!(store.get("b"), Some("2".to_string()));
}
