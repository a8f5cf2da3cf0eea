use configstore::{
    entry_file_name, json_outcome, AppUI, Configstore, ConfigstoreError, PRODUCT_NAMESPACE,
};
use serde::de::DeserializeOwned;
use serde::Serialize;
use serde_json::{Map as JsonMap, Value};
use std::collections::HashMap;
use std::path::PathBuf;

/// The entry files below one configuration root, kept in memory: each
/// relative path with its bytes.
type Files = HashMap<String, Vec<u8>>;

fn root() -> PathBuf {
    PathBuf::from("/home/user/.config").join(PRODUCT_NAMESPACE)
}

fn store(app: &str) -> Configstore {
    Configstore::from_config_dir(Some(root()), app).unwrap()
}

fn set<T: Serialize>(files: &mut Files, store: &Configstore, key: &str, value: &T) {
    let write = store.set_request(key, serde_json::to_vec(value)).unwrap();
    let path = format!("{}/{}", write.location.dir, write.location.file_name);
    files.insert(path, write.contents);
}

fn get<T: DeserializeOwned>(files: &Files, store: &Configstore, key: &str) -> Result<T, ConfigstoreError> {
    let location = store.entry_location(key);
    let path = format!("{}/{}", location.dir, location.file_name);
    let read = files
        .get(&path)
        .cloned()
        .ok_or_else(|| std::io::Error::new(std::io::ErrorKind::NotFound, "no such file"));
    let doc = Configstore::get_document(read)?;
    json_outcome(serde_json::from_slice(&doc))
}

fn record(text: &str, num: i64) -> Value {
    let mut fields = JsonMap::new();
    fields.insert("str_test".to_string(), Value::from(text));
    fields.insert("num".to_string(), Value::from(num));
    Value::Object(fields)
}

#[test]
fn test_struct() {
    let mut files = Files::new();
    let config_store = store("tests");
    let test_struct = record("Hello World", 1000);
    set(&mut files, &config_store, "test1", &test_struct);
    let other_struct: Value = get(&files, &config_store, "test1").unwrap();
    assert_eq!(test_struct, other_struct);
}

#[test]
fn test_string() {
    let mut files = Files::new();
    let config_store = store("tests");
    set(&mut files, &config_store, "test2", &String::from("World"));
    let out: String = get(&files, &config_store, "test2").unwrap();
    assert_eq!(out, "World".to_string());
}

#[test]
fn reset_same_type() {
    let mut files = Files::new();
    let config_store = store("tests");
    let test_struct = record("Hello World", 1000);
    set(&mut files, &config_store, "test3", &test_struct);
    let other_struct: Value = get(&files, &config_store, "test3").unwrap();
    assert_eq!(test_struct, other_struct);
    let replacement_struct = record("Goodbye World", 4242);
    set(&mut files, &config_store, "test3", &replacement_struct);
    let out: Value = get(&files, &config_store, "test3").unwrap();
    assert_eq!(replacement_struct, out);
}

#[test]
fn test_vector() {
    let mut files = Files::new();
    let config_store = store("tests");
    let test_vec = vec![record("Hello World", 1000), record("Goodbye world", 4524)];
    set(&mut files, &config_store, "test4", &test_vec);
    let out: Vec<Value> = get(&files, &config_store, "test4").unwrap();
    assert_eq!(out.len(), test_vec.len());
    for (i, val) in out.iter().enumerate() {
        assert_eq!(test_vec[i], *val);
    }
}

#[test]
fn file_name_appends_json_extension() {
    assert_eq!(entry_file_name("key"), "key.json");
    assert_eq!(entry_file_name(""), ".json");
    assert_eq!(entry_file_name("a.b"), "a.b.json");
}

#[test]
fn entry_location_is_app_dir_and_file_name() {
    let s = store("myApp");
    let location = s.entry_location("key");
    assert_eq!(location.dir, "myApp");
    assert_eq!(location.file_name, "key.json");
}

#[test]
fn unresolved_directory_is_an_error() {
    let r = Configstore::from_config_dir(None, "myApp");
    assert!(matches!(r, Err(ConfigstoreError::DirectoryResolution)));
}

#[test]
fn resolved_directory_is_kept() {
    let s = store("myApp");
    assert_eq!(s.config_dir(), &root());
    assert_eq!(s.app_name(), "myApp");
}

#[test]
fn same_name_gives_same_base_directory() {
    let a = store("myApp");
    let b = store("myApp");
    assert_eq!(a.config_dir(), b.config_dir());
    assert_eq!(a.app_name(), b.app_name());
    assert_eq!(a.entry_location("k").dir, b.entry_location("k").dir);
}

#[test]
fn locate_namespaces_by_product_and_application() {
    match Configstore::locate("myApp", AppUI::CommandLine) {
        Ok(s) => {
            assert!(s.config_dir().ends_with(PRODUCT_NAMESPACE));
            assert_eq!(s.app_name(), "myApp");
        }
        Err(e) => assert!(matches!(e, ConfigstoreError::DirectoryResolution)),
    }
}

#[test]
fn round_trip_string_scenario() {
    let mut files = Files::new();
    let s = store("myApp");
    set(&mut files, &s, "key", &"value".to_string());
    let value: String = get(&files, &s, "key").unwrap();
    assert_eq!(value, "value");
}

#[test]
fn round_trip_list_keeps_order() {
    let mut files = Files::new();
    let s = store("myApp");
    let mut a = JsonMap::new();
    a.insert("text".to_string(), Value::from("a"));
    a.insert("num".to_string(), Value::from(1));
    let mut b = JsonMap::new();
    b.insert("text".to_string(), Value::from("b"));
    b.insert("num".to_string(), Value::from(2));
    let list = vec![Value::Object(a), Value::Object(b)];
    set(&mut files, &s, "list", &list);
    let out: Vec<Value> = get(&files, &s, "list").unwrap();
    assert_eq!(out.len(), 2);
    assert_eq!(out, list);
}

#[test]
fn written_document_is_the_json_encoding() {
    let s = store("myApp");
    let write = s.set_request("key", serde_json::to_vec(&"value")).unwrap();
    assert_eq!(write.contents, b"\"value\"".to_vec());
    assert_eq!(write.location.file_name, "key.json");
}

#[test]
fn overwrite_keeps_only_the_last_value() {
    let mut files = Files::new();
    let s = store("myApp");
    set(&mut files, &s, "k", &1u32);
    set(&mut files, &s, "k", &2u32);
    let out: u32 = get(&files, &s, "k").unwrap();
    assert_eq!(out, 2);
    assert_eq!(files.len(), 1);
}

#[test]
fn shape_mismatch_is_a_serialization_error() {
    let mut files = Files::new();
    let s = store("myApp");
    set(&mut files, &s, "k", &"text".to_string());
    let out: Result<i64, ConfigstoreError> = get(&files, &s, "k");
    assert!(matches!(out, Err(ConfigstoreError::Serialization(_))));
}

#[test]
fn missing_key_is_an_io_error() {
    let mut files = Files::new();
    let s = store("myApp");
    set(&mut files, &s, "other", &0u8);
    let out: Result<u8, ConfigstoreError> = get(&files, &s, "never");
    assert!(matches!(out, Err(ConfigstoreError::Io(_))));
}

#[test]
fn applications_do_not_see_each_other() {
    let mut files = Files::new();
    let first = store("first");
    let second = store("second");
    set(&mut files, &first, "key", &"one".to_string());
    set(&mut files, &second, "key", &"two".to_string());
    let a: String = get(&files, &first, "key").unwrap();
    let b: String = get(&files, &second, "key").unwrap();
    assert_eq!(a, "one");
    assert_eq!(b, "two");
    let third = store("third");
    let c: Result<String, ConfigstoreError> = get(&files, &third, "key");
    assert!(c.is_err());
}

#[test]
fn failed_read_keeps_its_cause() {
    let read = Err(std::io::Error::new(std::io::ErrorKind::PermissionDenied, "denied"));
    match Configstore::get_document(read) {
        Err(ConfigstoreError::Io(e)) => assert_eq!(e.kind(), std::io::ErrorKind::PermissionDenied),
        _ => panic!("expected an I/O error"),
    }
}

#[test]
fn failed_encoding_writes_nothing() {
    let s = store("myApp");
    let bad: Result<Vec<u8>, serde_json::Error> = serde_json::from_slice::<Vec<u8>>(b"{");
    let r = s.set_request("k", bad);
    assert!(matches!(r, Err(ConfigstoreError::Serialization(_))));
}
