use actix_lua::directory::{find_last, lookup, register};

#[test]
fn register_adds_a_name() {
    let mut entries: Vec<(String, u32)> = Vec::new();
    assert_eq!(register(&mut entries, "a", 1), None);
    assert_eq!(register(&mut entries, "b", 2), None);
    assert_eq!(lookup(&entries, "a"), Some(&1));
    assert_eq!(lookup(&entries, "b"), Some(&2));
    assert_eq!(lookup(&entries, "c"), None);
}

#[test]
fn register_replaces_and_hands_back() {
    let mut entries: Vec<(String, u32)> = Vec::new();
    register(&mut entries, "a", 1);
    register(&mut entries, "b", 2);
    assert_eq!(register(&mut entries, "a", 3), Some(1));
    assert_eq!(lookup(&entries, "a"), Some(&3));
    assert_eq!(lookup(&entries, "b"), Some(&2));
    assert_eq!(entries.len(), 2);
}

#[test]
fn the_last_entry_of_a_name_counts() {
    let entries = vec![("a".to_string(), 1u32), ("b".to_string(), 2), ("a".to_string(), 3)];
    assert_eq!(find_last(&entries, "a"), Some(2));
    assert_eq!(find_last(&entries, "b"), Some(1));
    assert_eq!(find_last(&entries, "c"), None);
    assert_eq!(lookup(&entries, "a"), Some(&3));
}

#[test]
fn register_hands_back_the_entry_that_counted() {
    let mut entries = vec![("a".to_string(), 1u32), ("a".to_string(), 3)];
    assert_eq!(register(&mut entries, "a", 5), Some(3));
    assert_eq!(lookup(&entries, "a"), Some(&5));
}
