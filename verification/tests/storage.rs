use amico::storage::{InMemStorage, RawData};

#[test]
fn test_in_mem_storage() {
    // Create a new in-memory storage
    let mut storage = InMemStorage::new();

    // Test namespace creation
    let ns_name = "test_namespace";
    let result = storage.create(ns_name);
    assert!(result.is_ok());
    assert_eq!(result.unwrap(), ns_name);

    // Test namespace existence
    assert!(storage.exist(ns_name));

    // Test opening a namespace
    let namespace = storage.open(ns_name);
    assert!(namespace.is_ok());

    // Test namespace operations
    let namespace = namespace.unwrap();

    // Put data
    let key = "test_key";
    let value = "Test value".to_string();
    let result = namespace.put(key, value.clone().into());
    assert!(result.is_ok());

    // Check key existence
    assert!(namespace.exist(key));

    // Get data
    let result = namespace.get(key);
    assert!(result.is_ok());
    let data = result.unwrap();
    assert!(data.is_some());
    assert_eq!(data.unwrap(), value.into());

    // List keys
    let result = namespace.keys();
    assert!(result.is_ok());
    let keys = result.unwrap();
    assert_eq!(keys.len(), 1);
    assert_eq!(keys[0], key);

    // Delete key
    let result = namespace.delete(key);
    assert!(result.is_ok());
    assert!(!namespace.exist(key));

    // Test namespace listing
    let result = storage.list("");
    assert!(result.is_ok());
    let namespaces = result.unwrap();
    assert_eq!(namespaces.len(), 1);
    assert_eq!(namespaces[0], ns_name);

    // Test namespace removal
    let result = storage.remove(ns_name);
    assert!(result.is_ok());
    assert!(!storage.exist(ns_name));
}

#[test]
fn raw_data_round_trips_through_text() {
    let data = RawData::from("héllo".to_string());
    assert_eq!(data.to_bytes(), "héllo".as_bytes().to_vec());
    assert_eq!(data.to_string().unwrap(), "héllo");
    let bad = RawData::from(vec![0xffu8, 0xfe]);
    assert!(bad.to_string().is_err());
}
