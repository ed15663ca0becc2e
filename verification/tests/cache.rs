use std::collections::HashMap;

use mytool::cache::Cache;
use mytool::failure::{Failure, FailureKind};
use mytool::store::{OpenReply, Put, ReadReply, Slot, WriteReply};
use serde_json::Value;

/// A storage engine in memory: one table of slots, and the default namespace.
struct Engine {
    slots: HashMap<(String, String), Vec<u8>>,
}

impl Engine {
    fn new() -> Engine {
        Engine { slots: HashMap::new() }
    }

    fn read(&self, slot: &Slot) -> ReadReply {
        if slot.namespace != "default" {
            return ReadReply::NoNamespace;
        }
        match self.slots.get(&(slot.namespace.clone(), slot.key.clone())) {
            Some(bytes) => ReadReply::Found(bytes.clone()),
            None => ReadReply::Missing,
        }
    }

    fn write(&mut self, put: Put) -> WriteReply {
        if put.slot.namespace != "default" {
            return WriteReply::NoNamespace;
        }
        self.slots.insert((put.slot.namespace, put.slot.key), put.value);
        WriteReply::Done
    }
}

fn put(engine: &mut Engine, cache: &Cache, key: &str, value: &Value) -> Result<(), Failure> {
    let write = cache.put(key, value)?;
    Cache::written(engine.write(write))
}

fn get(engine: &Engine, cache: &Cache, key: &str) -> Result<Option<Value>, Failure> {
    cache.get(engine.read(&Cache::slot(key)))
}

fn text(s: &str) -> Value {
    Value::String(s.to_string())
}

#[test]
fn test_cache_new_and_close() {
    let cache = Cache::new(OpenReply::Opened);
    assert!(cache.is_ok());
}

#[test]
fn test_cache_put_get_string() {
    let mut engine = Engine::new();
    let cache = Cache::new(OpenReply::Opened).unwrap();

    let key = "test_string_key";
    let value = "test_string_value";

    put(&mut engine, &cache, key, &text(value)).unwrap();
    let retrieved_value = get(&engine, &cache, key).unwrap();

    assert_eq!(retrieved_value, Some(Value::String(value.to_string())));
}

#[test]
fn test_cache_get_non_existent() {
    let engine = Engine::new();
    let cache = Cache::new(OpenReply::Opened).unwrap();

    let key = "non_existent_key";
    let retrieved_value = get(&engine, &cache, key).unwrap();

    assert_eq!(retrieved_value, None);
}

#[test]
fn test_cache_put_get_struct() {
    let mut engine = Engine::new();
    let cache = Cache::new(OpenReply::Opened).unwrap();

    let key = "test_struct_key";
    let mut fields = serde_json::Map::new();
    fields.insert("name".to_string(), text("TestName"));
    fields.insert("id".to_string(), Value::from(42u32));
    fields.insert("active".to_string(), Value::Bool(true));
    let value = Value::Object(fields);

    put(&mut engine, &cache, key, &value).unwrap();
    let retrieved_value = get(&engine, &cache, key).unwrap();

    assert_eq!(retrieved_value, Some(value));
}

#[test]
fn test_cache_overwrite_key() {
    let mut engine = Engine::new();
    let cache = Cache::new(OpenReply::Opened).unwrap();

    let key = "overwrite_key";
    let value1 = "first_value";
    let value2 = "second_value";

    put(&mut engine, &cache, key, &text(value1)).unwrap();
    let retrieved1 = get(&engine, &cache, key).unwrap();
    assert_eq!(retrieved1, Some(Value::String(value1.to_string())));

    put(&mut engine, &cache, key, &text(value2)).unwrap();
    let retrieved2 = get(&engine, &cache, key).unwrap();
    assert_eq!(retrieved2, Some(Value::String(value2.to_string())));
}

#[test]
fn test_cache_put_get_complex_struct() {
    let mut engine = Engine::new();
    let cache = Cache::new(OpenReply::Opened).unwrap();

    let key = "complex_data_key";
    let mut inner = serde_json::Map::new();
    inner.insert("items".to_string(), Value::Array(vec![text("a"), text("b")]));
    inner.insert("count".to_string(), Value::from(2usize));
    let mut fields = serde_json::Map::new();
    fields.insert("id".to_string(), text("complex-1"));
    fields.insert("inner".to_string(), Value::Object(inner));
    fields.insert("enabled".to_string(), Value::Bool(true));
    let value = Value::Object(fields);

    put(&mut engine, &cache, key, &value).unwrap();
    let retrieved_value = get(&engine, &cache, key).unwrap();

    assert_eq!(retrieved_value, Some(value));
}

#[test]
fn cache_put_writes_compact_json_into_the_default_namespace() {
    let cache = Cache::new(OpenReply::Opened).unwrap();
    let write = cache.put("user:octocat", &text("a \"quoted\" line\n")).unwrap();
    assert_eq!(write.slot, Slot::new("default", "user:octocat"));
    assert_eq!(write.value, b"\"a \\\"quoted\\\" line\\n\"".to_vec());
}

#[test]
fn cache_put_leaves_other_keys() {
    let mut engine = Engine::new();
    let cache = Cache::new(OpenReply::Opened).unwrap();
    put(&mut engine, &cache, "a", &text("one")).unwrap();
    put(&mut engine, &cache, "b", &text("two")).unwrap();
    assert_eq!(get(&engine, &cache, "a").unwrap(), Some(text("one")));
    assert_eq!(get(&engine, &cache, "b").unwrap(), Some(text("two")));
    assert_eq!(get(&engine, &cache, "c").unwrap(), None);
}

#[test]
fn cache_get_reports_bytes_that_are_no_json() {
    let cache = Cache::new(OpenReply::Opened).unwrap();
    let failure = cache.get(ReadReply::Found(b"{not json".to_vec())).unwrap_err();
    assert_eq!(failure.kind, FailureKind::Decoding);
    assert_eq!(failure.to_string(), "Failed to deserialize value from cache");
}

#[test]
fn cache_reports_an_engine_that_fails() {
    let cache = Cache::new(OpenReply::Opened).unwrap();
    let failure = cache.get(ReadReply::Failed("IO error".to_string())).unwrap_err();
    assert_eq!(failure.kind, FailureKind::StorageUnavailable);
    assert_eq!(failure.message, "Failed to get value from RocksDB");
    let failure = cache.get(ReadReply::NoNamespace).unwrap_err();
    assert_eq!(failure.kind, FailureKind::StorageUnavailable);

    let failure = Cache::written(WriteReply::Failed("disk full".to_string())).unwrap_err();
    assert_eq!(failure.kind, FailureKind::StorageUnavailable);
    assert_eq!(failure.message, "Failed to put value into RocksDB");
    assert_eq!(Cache::written(WriteReply::Done), Ok(()));
}

#[test]
fn cache_new_reports_a_store_that_does_not_open() {
    let failure = Cache::new(OpenReply::Failed("lock held".to_string())).unwrap_err();
    assert_eq!(failure.kind, FailureKind::StorageUnavailable);
    assert_eq!(failure.message, "Failed to open RocksDB");
}

#[test]
fn put_printed_takes_the_bytes_or_reports_the_encoding() {
    let write = Cache::put_printed("k", Ok(b"[1]".to_vec())).unwrap();
    assert_eq!(write.slot, Slot::new("default", "k"));
    assert_eq!(write.value, b"[1]".to_vec());
    let error = serde_json::from_str::<Value>("{").unwrap_err();
    let failure = Cache::put_printed("k", Err(error)).unwrap_err();
    assert_eq!(failure.kind, FailureKind::Encoding);
    assert_eq!(failure.message, "Failed to serialize value for cache");
}
