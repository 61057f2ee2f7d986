use amico::storage::fs::{join_path, namespaces_from_listing, split_file_name};
use amico::storage::{FsNamespace, FsStorage, RawData, StorageError};

#[test]
fn namespace_from_missing_or_empty_file_is_empty() {
    let ns = FsNamespace::new("/tmp/a.json".to_string(), None).unwrap();
    assert!(ns.keys().unwrap().is_empty());
    assert!(ns.contents_to_save().is_none());
    let ns = FsNamespace::new("/tmp/a.json".to_string(), Some(String::new())).unwrap();
    assert!(ns.keys().unwrap().is_empty());
    assert_eq!(ns.path(), "/tmp/a.json");
}

#[test]
fn namespace_reads_json_object_of_byte_arrays() {
    let ns = FsNamespace::new("f.json".into(), Some("{\"b\":[1,2],\"a\":[104,105]}".into())).unwrap();
    assert_eq!(ns.keys().unwrap(), vec!["a".to_string(), "b".to_string()]);
    assert_eq!(ns.get("a").unwrap().unwrap().to_string().unwrap(), "hi");
    assert_eq!(ns.get("b").unwrap().unwrap().to_bytes(), vec![1u8, 2]);
    assert!(ns.get("c").unwrap().is_none());
    assert!(matches!(
        FsNamespace::new("f.json".into(), Some("not json".into())),
        Err(StorageError::Json(_))
    ));
}

#[test]
fn put_marks_modified_and_save_text_round_trips() {
    let mut ns = FsNamespace::new("f.json".into(), None).unwrap();
    ns.put("test_key", RawData::from(b"test_value".to_vec()));
    assert!(ns.exist("test_key"));
    let text = ns.contents_to_save().unwrap();
    ns.mark_saved();
    assert!(ns.contents_to_save().is_none());
    let again = FsNamespace::new("f.json".into(), Some(text)).unwrap();
    assert_eq!(again.get("test_key").unwrap().unwrap().to_string().unwrap(), "test_value");

    // Deleting an absent key leaves nothing to save; deleting a present one does.
    ns.delete("absent");
    assert!(ns.contents_to_save().is_none());
    ns.delete("test_key");
    assert!(!ns.exist("test_key"));
    assert_eq!(ns.contents_to_save().unwrap(), "{}");
}

#[test]
fn storage_paths_and_opening() {
    let mut s = FsStorage::new("/data".to_string());
    assert_eq!(s.namespace_path("ns"), "/data/ns.json");
    assert!(!s.is_open("ns"));
    assert!(matches!(s.open("ns", None), Err(StorageError::NoNamespace(n)) if n == "ns"));
    {
        let ns = s.open("ns", Some(String::new())).unwrap();
        ns.put("k", RawData::from("v".to_string()));
        assert_eq!(ns.path(), "/data/ns.json");
    }
    assert!(s.is_open("ns"));
    // An open namespace is returned as it is.
    assert!(s.open("ns", None).unwrap().exist("k"));
    assert_eq!(s.open_namespaces(), vec!["ns".to_string()]);
    let closed = s.close("ns").unwrap();
    assert!(closed.contents_to_save().is_some());
    assert!(!s.is_open("ns"));
    assert!(FsStorage::check_list("").is_ok());
    assert!(matches!(FsStorage::check_list("x"), Err(StorageError::NoNamespace(n)) if n == "x"));
}

#[test]
fn paths_join_as_on_unix() {
    assert_eq!(join_path("/data", "a.json"), "/data/a.json");
    assert_eq!(join_path("/data/", "a.json"), "/data/a.json");
    assert_eq!(join_path("", "a.json"), "a.json");
    assert_eq!(join_path("/data", "/etc/a.json"), "/etc/a.json");
}

#[test]
fn file_names_split_as_std_does() {
    assert_eq!(split_file_name("a.json"), (Some("json".to_string()), "a".to_string()));
    assert_eq!(split_file_name("a.b.json"), (Some("json".to_string()), "a.b".to_string()));
    assert_eq!(split_file_name(".json"), (None, ".json".to_string()));
    assert_eq!(split_file_name(".."), (None, "..".to_string()));
    assert_eq!(split_file_name("noext"), (None, "noext".to_string()));
    assert_eq!(split_file_name("x."), (Some(String::new()), "x".to_string()));
    let listing = vec![
        ("test_namespace.json".to_string(), true),
        ("dir.json".to_string(), false),
        ("notes.txt".to_string(), true),
        (".json".to_string(), true),
    ];
    assert_eq!(namespaces_from_listing(&listing), vec!["test_namespace".to_string()]);
}

#[test]
fn test_fs_storage() {
    // A storage under a root directory; a namespace is created as an empty file.
    let mut storage = FsStorage::new("/tmp/amico_test_root".to_string());

    // Test namespace creation
    let ns_name = "test_namespace";
    storage.open(ns_name, Some(String::new())).unwrap();
    assert!(storage.is_open(ns_name));

    // Test namespace opening
    let namespace = storage.open(ns_name, None).unwrap();

    // Test key-value operations
    let key = "test_key";
    let value = RawData::from(b"test_value".to_vec());

    // Test put and get
    namespace.put(key, value);
    assert!(namespace.exist(key));

    let retrieved = namespace.get(key).unwrap().unwrap();
    let retrieved_str = retrieved.to_string().unwrap();
    assert_eq!(retrieved_str, "test_value");

    // Test keys listing
    let keys = namespace.keys().unwrap();
    assert_eq!(keys.len(), 1);
    assert_eq!(keys[0], key);

    // Test key deletion
    namespace.delete(key);
    assert!(!namespace.exist(key));

    // Test namespace listing
    assert!(FsStorage::check_list("").is_ok());
    let namespaces = storage.open_namespaces();
    assert_eq!(namespaces.len(), 1);
    assert_eq!(namespaces[0], ns_name);

    // Test namespace removal
    assert!(storage.close(ns_name).is_some());
    assert!(!storage.is_open(ns_name));
}

#[test]
fn delete_keeps_the_order_of_the_other_keys() {
    let mut ns = FsNamespace::new("f.json".into(), None).unwrap();
    for k in ["a", "b", "c"] {
        ns.put(k, RawData::from(k.to_string()));
    }
    ns.put("a", RawData::from("again".to_string()));
    assert_eq!(ns.keys().unwrap(), vec!["a", "b", "c"]);
    ns.delete("b");
    assert_eq!(ns.keys().unwrap(), vec!["a", "c"]);
    ns.put("b", RawData::from("b".to_string()));
    assert_eq!(ns.keys().unwrap(), vec!["a", "c", "b"]);
}
