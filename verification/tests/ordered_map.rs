use type_reg::ordered_map::{OrderedMap, MAX_RESERVED};

#[test]
fn ordered_map_starts_empty() {
    let map = OrderedMap::<u32>::new();

    assert_eq!(0, map.len());
    assert!(map.is_empty());
    assert_eq!(0, map.capacity());
    assert!(!map.contains_key("one"));
    assert_eq!(None, map.get("one"));
    assert_eq!(None, map.position("one"));
}

#[test]
fn ordered_map_insert_appends_a_new_key_and_replaces_in_place_an_old_one() {
    let mut map = OrderedMap::new();

    assert_eq!(None, map.insert(String::from("b"), 1u32));
    assert_eq!(None, map.insert(String::from("a"), 2u32));
    assert_eq!(None, map.insert(String::from("c"), 3u32));
    assert_eq!(Some(1), map.insert(String::from("b"), 4u32));

    assert_eq!(3, map.len());
    assert!(!map.is_empty());
    assert_eq!("b", map.key_at(0));
    assert_eq!("a", map.key_at(1));
    assert_eq!("c", map.key_at(2));
    assert_eq!(&4, map.value_at(0));
    assert_eq!(&2, map.value_at(1));
    assert_eq!(&3, map.value_at(2));
    assert_eq!(Some(0), map.position("b"));
    assert_eq!(Some(2), map.position("c"));
    assert_eq!(Some(&4), map.get("b"));
    assert!(map.contains_key("a"));
    assert!(!map.contains_key("d"));
}

#[test]
fn ordered_map_get_mut_changes_one_value() {
    let mut map = OrderedMap::new();
    map.insert(String::from("one"), 1u32);
    map.insert(String::from("two"), 2u32);

    *map.get_mut("two").unwrap() += 10;
    *map.value_at_mut(0) += 100;

    assert_eq!(None, map.get_mut("three"));
    assert_eq!(Some(&101), map.get("one"));
    assert_eq!(Some(&12), map.get("two"));
    assert_eq!(2, map.len());
}

#[test]
fn ordered_map_keys_are_matched_exactly() {
    let mut map = OrderedMap::new();
    map.insert(String::from("one"), 1u32);

    assert_eq!(None, map.get("on"));
    assert_eq!(None, map.get("one "));
    assert_eq!(None, map.get("One"));
    assert_eq!(None, map.get(""));
    assert_eq!(Some(&1), map.get("one"));
}

#[test]
fn ordered_map_with_capacity_makes_room() {
    let map = OrderedMap::<u8>::with_capacity(5);
    assert!(map.capacity() >= 5);
    assert!(map.is_empty());

    let map = OrderedMap::<u8>::with_capacity(usize::MAX);
    assert!(map.capacity() >= MAX_RESERVED);
    assert!(map.is_empty());
}

#[test]
fn capacity_covers_what_is_held_and_what_room_was_made_for() {
    let mut map = OrderedMap::<u32>::with_capacity(3);
    assert!(map.capacity() >= 3);
    for i in 0..100u32 {
        map.insert(format!("key{i}"), i);
        assert!(map.capacity() >= map.len());
        assert!(map.capacity() >= 3);
    }
    assert_eq!(100, map.len());

    let mut map = OrderedMap::<u32>::with_capacity(50);
    map.insert(String::from("one"), 1);
    *map.get_mut("one").unwrap() = 2;
    assert!(map.capacity() >= 50);
}
