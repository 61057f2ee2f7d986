use amico::keymap::KeyMap;

#[test]
fn keymap_keeps_first_insertion_order() {
    let mut m: KeyMap<u32> = KeyMap::new();
    m.insert("b".to_string(), 1);
    m.insert("a".to_string(), 2);
    m.insert("b".to_string(), 3);
    assert_eq!(m.len(), 2);
    assert_eq!(m.keys(), vec!["b".to_string(), "a".to_string()]);
    assert_eq!(m.get("b"), Some(&3));
    *m.get_mut("a").unwrap() = 7;
    assert_eq!(m.get("a"), Some(&7));
    assert_eq!(m.remove("b"), Some(3));
    assert_eq!(m.remove("b"), None);
    assert!(!m.contains_key("b"));
    assert_eq!(m.keys(), vec!["a".to_string()]);
}
