use ldtstore_codegen::ordered::OrderedMap;

#[test]
fn new_map_is_empty() {
    let m: OrderedMap<u32> = OrderedMap::new();
    assert_eq!(m.len(), 0);
    assert!(!m.contains_key("a"));
    assert_eq!(m.get("a"), None);
    assert_eq!(m.index_of("a"), None);
}

#[test]
fn insert_puts_new_keys_last() {
    let mut m = OrderedMap::new();
    assert_eq!(m.insert("zeta".to_string(), 1), None);
    assert_eq!(m.insert("alpha".to_string(), 2), None);
    assert_eq!(m.insert("mid".to_string(), 3), None);
    assert_eq!(m.len(), 3);
    assert_eq!(m.key_at(0), "zeta");
    assert_eq!(m.key_at(1), "alpha");
    assert_eq!(m.key_at(2), "mid");
    assert_eq!(*m.value_at(0), 1);
    assert_eq!(*m.value_at(1), 2);
    assert_eq!(*m.value_at(2), 3);
}

#[test]
fn insert_of_a_known_key_keeps_its_place() {
    let mut m = OrderedMap::new();
    m.insert("a".to_string(), 1);
    m.insert("b".to_string(), 2);
    assert_eq!(m.insert("a".to_string(), 9), Some(1));
    assert_eq!(m.len(), 2);
    assert_eq!(m.key_at(0), "a");
    assert_eq!(*m.value_at(0), 9);
    assert_eq!(m.key_at(1), "b");
    assert_eq!(*m.value_at(1), 2);
}

#[test]
fn get_and_index_of_find_by_key() {
    let mut m = OrderedMap::new();
    m.insert("a".to_string(), 10);
    m.insert("b".to_string(), 20);
    assert_eq!(m.get("b"), Some(&20));
    assert_eq!(m.get("a"), Some(&10));
    assert_eq!(m.get("c"), None);
    assert_eq!(m.index_of("b"), Some(1));
    assert_eq!(m.index_of("a"), Some(0));
    assert!(m.contains_key("a"));
    assert!(!m.contains_key("A"));
}

#[test]
fn replace_at_swaps_the_value() {
    let mut m = OrderedMap::new();
    m.insert("a".to_string(), 10);
    m.insert("b".to_string(), 20);
    assert_eq!(m.replace_at(1, 21), 20);
    assert_eq!(m.get("b"), Some(&21));
    assert_eq!(m.key_at(1), "b");
    assert_eq!(m.len(), 2);
}

#[test]
fn entry_at_gives_entries_by_position() {
    let mut m = OrderedMap::new();
    m.insert("b".to_string(), 2);
    m.insert("a".to_string(), 1);
    assert_eq!(m.entry_at(0), Some((&"b".to_string(), &2)));
    assert_eq!(m.entry_at(1), Some((&"a".to_string(), &1)));
    assert_eq!(m.entry_at(2), None);
}
