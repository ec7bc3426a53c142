use kv_store::handlers::{clear_db, delete_value, get_value, set_value};
use kv_store::reply::{KeyValue, ResponseMessage};
use kv_store::store::Store;

fn entry(key: &str, value: &str) -> KeyValue {
    KeyValue { key: String::from(key), value: String::from(value) }
}

#[test]
fn set_get_delete_clear_round_trip() {
    let mut db = Store::new();

    let reply = set_value(&mut db, entry("x", "1"));
    assert_eq!(reply.message, "Key 'x' set successfully.");

    let found = get_value(&db, String::from("x"));
    assert_eq!(found, Some(entry("x", "1")));

    let reply = delete_value(&mut db, String::from("x"));
    assert_eq!(reply.message, "Key 'x' deleted successfully.");

    assert_eq!(get_value(&db, String::from("x")), None);

    let reply = delete_value(&mut db, String::from("x"));
    assert_eq!(reply.message, "Key 'x' not found.");

    let reply = clear_db(&mut db);
    assert_eq!(reply.message, "Database cleared.");
    assert_eq!(db.len(), 0);
}

#[test]
fn get_value_on_miss_is_none() {
    let db = Store::new();
    assert_eq!(get_value(&db, String::from("nothing")), None);
}

#[test]
fn get_value_leaves_the_store_unchanged() {
    let mut db = Store::new();
    set_value(&mut db, entry("a", "1"));
    assert_eq!(get_value(&db, String::from("a")), Some(entry("a", "1")));
    assert_eq!(get_value(&db, String::from("a")), Some(entry("a", "1")));
    assert_eq!(db.len(), 1);
}

#[test]
fn set_value_overwrites_silently() {
    let mut db = Store::new();
    let first = set_value(&mut db, entry("k", "old"));
    let second = set_value(&mut db, entry("k", "new"));
    assert_eq!(first.message, "Key 'k' set successfully.");
    assert_eq!(second.message, "Key 'k' set successfully.");
    assert_eq!(get_value(&db, String::from("k")), Some(entry("k", "new")));
    assert_eq!(db.len(), 1);
}

#[test]
fn delete_value_of_missing_key_keeps_the_size() {
    let mut db = Store::new();
    set_value(&mut db, entry("a", "1"));
    let reply = delete_value(&mut db, String::from("b"));
    assert_eq!(reply.message, "Key 'b' not found.");
    assert_eq!(db.len(), 1);
    assert_eq!(get_value(&db, String::from("a")), Some(entry("a", "1")));
}

#[test]
fn clear_db_removes_all_keys() {
    let mut db = Store::new();
    set_value(&mut db, entry("a", "1"));
    set_value(&mut db, entry("b", "2"));
    let reply = clear_db(&mut db);
    assert_eq!(reply, ResponseMessage { message: String::from("Database cleared.") });
    assert_eq!(get_value(&db, String::from("a")), None);
    assert_eq!(get_value(&db, String::from("b")), None);
}

#[test]
fn messages_name_the_key_as_given() {
    let mut db = Store::new();
    let reply = set_value(&mut db, entry("it's", "v"));
    assert_eq!(reply.message, "Key 'it's' set successfully.");
    let reply = set_value(&mut db, entry("", "v"));
    assert_eq!(reply.message, "Key '' set successfully.");
    let reply = delete_value(&mut db, String::from("a b"));
    assert_eq!(reply.message, "Key 'a b' not found.");
    let reply = delete_value(&mut db, String::from("it's"));
    assert_eq!(reply.message, "Key 'it's' deleted successfully.");
    let reply = set_value(&mut db, entry("cl\u{e9}", "v"));
    assert_eq!(reply.message, "Key 'cl\u{e9}' set successfully.");
}

#[test]
fn reply_constructors_give_the_exact_text() {
    assert_eq!(ResponseMessage::key_set("k").message, "Key 'k' set successfully.");
    assert_eq!(ResponseMessage::key_deleted("k").message, "Key 'k' deleted successfully.");
    assert_eq!(ResponseMessage::key_not_found("k").message, "Key 'k' not found.");
    assert_eq!(ResponseMessage::cleared().message, "Database cleared.");
}

#[test]
fn clones_are_equal_to_their_source() {
    let kv = entry("k", "v");
    assert_eq!(kv.clone(), kv);
    let reply = ResponseMessage::key_set("k");
    assert_eq!(reply.clone(), reply);
}

#[test]
fn delete_replies_differ_for_the_same_key() {
    let found = ResponseMessage::key_deleted("k");
    let missing = ResponseMessage::key_not_found("k");
    assert_ne!(found, missing);
    assert_ne!(ResponseMessage::key_deleted(""), ResponseMessage::key_not_found(""));
}
