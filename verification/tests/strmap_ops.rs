use cat_games_launcher::strmap::StrMap;

fn map_of(entries: &[(&str, u64)]) -> StrMap<u64> {
    let mut m = StrMap::new();
    for (k, v) in entries {
        m.insert(k.to_string(), *v);
    }
    m
}

#[test]
fn insert_then_get_gives_value() {
    let mut m = map_of(&[("a", 1), ("b", 2)]);
    m.insert("c".to_string(), 3);
    assert_eq!(m.get("c"), Some(&3));
    assert_eq!(m.get("a"), Some(&1));
    assert_eq!(m.len(), 3);
}

#[test]
fn insert_existing_key_replaces_in_place() {
    let mut m = map_of(&[("a", 1), ("b", 2)]);
    m.insert("a".to_string(), 9);
    assert_eq!(m.len(), 2);
    assert_eq!(m.keys(), vec!["a".to_string(), "b".to_string()]);
    assert_eq!(m.get("a"), Some(&9));
}

#[test]
fn remove_forgets_only_that_key() {
    let mut m = map_of(&[("a", 1), ("b", 2), ("c", 3)]);
    assert_eq!(m.remove("b"), Some(2));
    assert_eq!(m.get("b"), None);
    assert_eq!(m.keys(), vec!["a".to_string(), "c".to_string()]);
    assert_eq!(m.remove("zz"), None);
    assert_eq!(m.len(), 2);
}

#[test]
fn find_and_positions() {
    let m = map_of(&[("x", 5), ("y", 6)]);
    assert_eq!(m.find("y"), Some(1));
    assert_eq!(m.find("q"), None);
    assert!(m.contains_key("x"));
    assert_eq!(m.key_at(0), "x");
    assert_eq!(*m.value_at(1), 6);
}
