use shared_state_machine::umap::UMap;
use shared_state_machine::update::Updatable;

#[test]
fn umap_tests_simple_operations() {
    let mut umap: UMap<String, i32> = UMap::new();
    let foo = String::from("foo");
    let bar = String::from("bar");
    let insert_5 = umap.insert(foo.clone(), 5);
    let insert_7 = umap.insert(bar.clone(), 7);
    let remove_5 = umap.remove(foo.clone());
    let remove_7 = umap.remove(bar.clone());

    assert_eq!(umap.get(&foo), None);
    assert_eq!(umap.get(&bar), None);
    umap.apply_update(insert_5);
    assert_eq!(umap.get(&foo), Some(5));
    assert_eq!(umap.get(&bar), None);
    umap.apply_update(insert_7);
    assert_eq!(umap.get(&foo), Some(5));
    assert_eq!(umap.get(&bar), Some(7));
    umap.apply_update(remove_5);
    assert_eq!(umap.get(&foo), None);
    assert_eq!(umap.get(&bar), Some(7));
    umap.apply_update(remove_7);
    assert_eq!(umap.get(&foo), None);
    assert_eq!(umap.get(&bar), None);
}

#[test]
fn umap_tests_recursive_operations() {
    let mut umap: UMap<String, UMap<i32, UMap<String, UMap<String, i32>>>> = UMap::new();
    let foo = String::from("foo");
    let bar = String::from("bar");
    let val = 7;
    umap.apply_update(umap.insert(foo.clone(), UMap::new()));
    umap.apply_update(umap.get_mut(foo.clone()).insert(val.clone(), UMap::new()));
    umap.apply_update(
        umap.get_mut(foo.clone())
            .get_mut(val.clone())
            .insert(bar.clone(), UMap::new()),
    );
    umap.apply_update(
        umap.get_mut(foo.clone())
            .get_mut(val.clone())
            .get_mut(bar.clone())
            .insert(foo.clone(), 5),
    );

    assert_eq!(
        umap.get(&foo)
            .unwrap()
            .get(&val)
            .unwrap()
            .get(&bar)
            .unwrap()
            .get(&foo)
            .unwrap(),
        5
    );
}

#[test]
fn umap_insert_overwrites() {
    let mut umap: UMap<String, i32> = UMap::new();
    assert!(umap.apply_update(umap.insert(String::from("k"), 1)));
    assert!(umap.apply_update(umap.insert(String::from("k"), 2)));
    assert_eq!(umap.get(&String::from("k")), Some(2));
}

#[test]
fn umap_remove_missing_key_is_a_no_op() {
    let mut umap: UMap<i32, i32> = UMap::new();
    umap.apply_update(umap.insert(1, 10));
    assert!(umap.apply_update(umap.remove(2)));
    assert_eq!(umap.get(&1), Some(10));
    assert_eq!(umap.get(&2), None);
}

#[test]
fn umap_nested_on_missing_key_is_refused() {
    let mut umap: UMap<i32, UMap<i32, i32>> = UMap::new();
    let update = umap.get_mut(3).insert(1, 1);
    assert!(!umap.apply_update(update));
    assert!(umap.get(&3).is_none());
}

#[test]
fn umap_nested_update_reaches_only_its_key() {
    let mut umap: UMap<i32, UMap<i32, i32>> = UMap::new();
    umap.apply_update(umap.insert(1, UMap::new()));
    umap.apply_update(umap.insert(2, UMap::new()));
    assert!(umap.apply_update(umap.get_mut(2).insert(5, 50)));
    assert_eq!(umap.get(&2).unwrap().get(&5), Some(50));
    assert_eq!(umap.get(&1).unwrap().get(&5), None);
}

#[test]
fn umap_duplicate_and_fresh() {
    let mut umap: UMap<String, i32> = UMap::fresh();
    umap.apply_update(umap.insert(String::from("a"), 1));
    let copy = umap.duplicate();
    umap.apply_update(umap.remove(String::from("a")));
    assert_eq!(copy.get(&String::from("a")), Some(1));
    assert_eq!(umap.get(&String::from("a")), None);
}
