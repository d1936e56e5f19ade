use iwd_devices::StringMap;

#[test]
fn new_map_is_empty() {
    let map: StringMap<u32> = StringMap::new();
    assert_eq!(map.len(), 0);
    assert!(map.is_empty());
    assert!(!map.contains_key("a"));
    assert_eq!(map.get("a"), None);
}

#[test]
fn insert_stores_under_the_key() {
    let mut map = StringMap::new();
    assert_eq!(map.insert("a".to_string(), 1u32), None);
    assert_eq!(map.insert("b".to_string(), 2u32), None);
    assert_eq!(map.len(), 2);
    assert!(!map.is_empty());
    assert_eq!(map.get("a"), Some(&1));
    assert_eq!(map.get("b"), Some(&2));
    assert_eq!(map.get("c"), None);
    assert!(map.contains_key("a"));
    assert!(!map.contains_key("c"));
}

#[test]
fn insert_replaces_and_hands_back_the_old_value() {
    let mut map = StringMap::new();
    map.insert("a".to_string(), 1u32);
    map.insert("b".to_string(), 2u32);
    map.insert("c".to_string(), 3u32);
    assert_eq!(map.insert("a".to_string(), 10u32), Some(1));
    assert_eq!(map.len(), 3);
    assert_eq!(map.get("a"), Some(&10));
    assert_eq!(map.get("b"), Some(&2));
    assert_eq!(map.get("c"), Some(&3));
    assert_eq!(map.insert("c".to_string(), 30u32), Some(3));
    assert_eq!(map.insert("c".to_string(), 31u32), Some(30));
    assert_eq!(map.len(), 3);
    assert_eq!(map.get("c"), Some(&31));
}

#[test]
fn keys_keep_the_order_of_first_insertion() {
    let mut map = StringMap::new();
    map.insert("z".to_string(), 1u32);
    map.insert("a".to_string(), 2u32);
    map.insert("m".to_string(), 3u32);
    map.insert("z".to_string(), 4u32);
    map.insert("a".to_string(), 5u32);
    let keys: Vec<&str> = (0..map.len()).map(|i| map.entry(i).unwrap().0.as_str()).collect();
    assert_eq!(keys, vec!["z", "a", "m"]);
    let values: Vec<u32> = (0..map.len()).map(|i| *map.entry(i).unwrap().1).collect();
    assert_eq!(values, vec![4, 5, 3]);
}

#[test]
fn keys_are_compared_exactly() {
    let mut map = StringMap::new();
    map.insert("Name".to_string(), 1u32);
    assert!(!map.contains_key("name"));
    assert!(!map.contains_key("Nam"));
    assert!(!map.contains_key("Name "));
    assert!(!map.contains_key(""));
    assert_eq!(map.insert("name".to_string(), 2u32), None);
    assert_eq!(map.len(), 2);
    assert_eq!(map.insert("".to_string(), 3u32), None);
    assert_eq!(map.get(""), Some(&3));
    assert_eq!(map.len(), 3);
}

#[test]
fn each_key_is_listed_once() {
    let mut map = StringMap::new();
    for round in 0..3u32 {
        for name in ["a", "b", "c", "d"] {
            map.insert(name.to_string(), round);
        }
    }
    assert_eq!(map.len(), 4);
    for i in 0..map.len() {
        let (key, value) = map.entry(i).unwrap();
        for j in 0..map.len() {
            if i != j {
                assert_ne!(key, map.entry(j).unwrap().0);
            }
        }
        assert_eq!(map.get(key), Some(value));
        assert_eq!(*value, 2);
    }
}

#[test]
fn entry_past_the_end_is_none() {
    let mut map = StringMap::new();
    assert!(map.entry(0).is_none());
    map.insert("a".to_string(), 1u32);
    assert_eq!(map.entry(0), Some((&"a".to_string(), &1)));
    assert!(map.entry(1).is_none());
    assert!(map.entry(usize::MAX).is_none());
}
