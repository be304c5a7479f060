use std::collections::HashMap;

use secret_item::error::ItemError;
use secret_item::item::Item;
use secret_item::path::{is_root, is_valid_object_path};
use secret_item::property::{Property, Timestamp, Value};

const ITEM_PATH: &str = "/org/freedesktop/secrets/collection/login/1";

#[test]
fn new_accepts_well_formed_paths() {
    for p in ["/", ITEM_PATH, "/a", "/A_b/9"] {
        let item = Item::new(p).unwrap();
        assert_eq!(item.path(), p);
    }
}

#[test]
fn new_refuses_malformed_paths_with_address_error() {
    for p in ["", "a/b", "//", "/a//b", "/a/", "/a-b", "/a b", "/é"] {
        match Item::new(p) {
            Err(ItemError::Address(s)) => assert_eq!(s, p),
            other => panic!("unexpected {:?} for {:?}", other, p),
        }
    }
}

#[test]
fn object_path_check() {
    assert!(is_valid_object_path("/org/freedesktop/secrets"));
    assert!(!is_valid_object_path("org/freedesktop"));
    assert!(!is_valid_object_path("/org/"));
    assert!(is_root("/"));
    assert!(!is_root("/a"));
    assert!(!is_root(""));
}

#[test]
fn item_address() {
    let item = Item::new(ITEM_PATH).unwrap();
    assert_eq!(item.interface(), "org.freedesktop.Secret.Item");
    assert_eq!(item.destination(), "org.freedesktop.secrets");
}

#[test]
fn delete_root_reply_means_no_prompt() {
    let item = Item::new(ITEM_PATH).unwrap();
    assert!(item.delete("/").unwrap().is_none());
}

#[test]
fn delete_other_reply_is_a_prompt_at_that_path() {
    let item = Item::new(ITEM_PATH).unwrap();
    let prompt = item.delete("/org/freedesktop/secrets/prompt/p1").unwrap().unwrap();
    assert_eq!(prompt.path(), "/org/freedesktop/secrets/prompt/p1");
}

#[test]
fn delete_malformed_reply_is_a_decode_error() {
    let item = Item::new(ITEM_PATH).unwrap();
    match item.delete("not a path") {
        Err(ItemError::Decode(m)) => assert_eq!(m, "not a path"),
        other => panic!("unexpected {:?}", other),
    }
}

#[test]
fn set_label_writes_label_once() {
    let item = Item::new(ITEM_PATH).unwrap();
    let w = item.set_label("x");
    assert_eq!(w.property, Property::Label);
    assert_eq!(w.property.name(), "Label");
    assert_eq!(w.value, Value::Text("x".to_string()));
}

#[test]
fn set_attributes_writes_all_pairs() {
    let item = Item::new(ITEM_PATH).unwrap();
    let mut pairs = HashMap::new();
    pairs.insert("a".to_string(), "1".to_string());
    pairs.insert("b".to_string(), "2".to_string());
    pairs.insert("c".to_string(), "3".to_string());
    let w = item.set_attributes(pairs.clone());
    assert_eq!(w.property, Property::Attributes);
    assert_eq!(w.property.name(), "Attributes");
    match &w.value {
        Value::Attributes(m) => {
            assert_eq!(m.len(), 3);
            assert_eq!(m.get("a").map(String::as_str), Some("1"));
            assert_eq!(m.get("b").map(String::as_str), Some("2"));
            assert_eq!(m.get("c").map(String::as_str), Some("3"));
        }
        other => panic!("unexpected {:?}", other),
    }
    assert_eq!(w.value, Value::Attributes(pairs));
    let empty = item.set_attributes(HashMap::new());
    assert_eq!(empty.value, Value::Attributes(HashMap::new()));
}

#[test]
fn property_names() {
    assert_eq!(Property::Locked.name(), "Locked");
    assert_eq!(Property::Label.name(), "Label");
    assert_eq!(Property::Created.name(), "Created");
    assert_eq!(Property::Modified.name(), "Modified");
    assert_eq!(Property::Attributes.name(), "Attributes");
}

#[test]
fn timestamps_are_whole_seconds() {
    let item = Item::new(ITEM_PATH).unwrap();
    let zero = item.created(0);
    assert_eq!(zero.as_secs(), 0);
    assert_eq!(zero.subsec_nanos(), 0);
    let t = item.modified(1_700_000_000);
    assert_eq!(t.as_secs(), 1_700_000_000);
    assert_eq!(t.subsec_nanos(), 0);
    let max = item.created(u64::MAX);
    assert_eq!(max.as_secs(), u64::MAX);
    assert_eq!(max.subsec_nanos(), 0);
    assert_eq!(Timestamp::from_secs(42), item.modified(42));
}

#[test]
fn error_messages() {
    assert_eq!(ItemError::Address("a".to_string()).message(), "a");
    assert_eq!(ItemError::Transport("t".to_string()).message(), "t");
    let remote = ItemError::Remote {
        name: "org.freedesktop.DBus.Error.AccessDenied".to_string(),
        message: "denied".to_string(),
    };
    assert_eq!(remote.message(), "denied");
    assert_eq!(ItemError::Decode("d".to_string()).message(), "d");
}
