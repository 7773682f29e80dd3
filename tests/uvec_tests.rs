use shared_state_machine::update::Updatable;
use shared_state_machine::uvec::UVec;

#[test]
fn uvec_tests_simple_operations() {
    let mut uvec: UVec<i32> = UVec::new();
    let push_5 = uvec.push(5);
    let insert_1_0 = uvec.insert(1, 0);
    let pop = uvec.pop();
    let remove_0 = uvec.remove(0);
    let clear = uvec.clear();

    uvec.apply_update(push_5);
    assert_eq!(uvec.last().unwrap(), 5);
    assert_eq!(uvec.get(0).unwrap(), 5);
    let push_7 = uvec.push(7);
    assert_eq!(uvec.last().unwrap(), 5);
    uvec.apply_update(push_7);
    assert_eq!(uvec.last().unwrap(), 7);

    uvec.apply_update(insert_1_0);
    assert_eq!(uvec.get(0).unwrap(), 5);
    assert_eq!(uvec.get(1).unwrap(), 0);
    assert_eq!(uvec.get(2).unwrap(), 7);

    uvec.apply_update(pop);
    assert_eq!(uvec.last().unwrap(), 0);

    uvec.apply_update(remove_0);
    assert_eq!(uvec.get(0).unwrap(), 0);

    uvec.apply_update(clear);
    assert!(uvec.is_empty());
}

#[test]
fn uvec_tests_recursive_operations() {
    let mut uvec: UVec<UVec<UVec<UVec<i32>>>> = UVec::new();
    uvec.apply_update(uvec.push(UVec::new()));
    uvec.apply_update(uvec.get_mut(0).push(UVec::new()));
    uvec.apply_update(uvec.get_mut(0).get_mut(0).push(UVec::new()));
    uvec.apply_update(uvec.get_mut(0).get_mut(0).get_mut(0).push(5));

    assert_eq!(
        uvec.get(0)
            .unwrap()
            .get(0)
            .unwrap()
            .get(0)
            .unwrap()
            .get(0)
            .unwrap(),
        5
    );
    assert_eq!(
        uvec.get(0)
            .unwrap()
            .last()
            .unwrap()
            .last()
            .unwrap()
            .last()
            .unwrap(),
        5
    );
}

#[test]
fn uvec_out_of_range_updates_are_refused() {
    let mut uvec: UVec<i32> = UVec::new();
    uvec.apply_update(uvec.push(1));
    assert!(!uvec.apply_update(uvec.insert(2, 9)));
    assert!(!uvec.apply_update(uvec.remove(1)));
    assert!(!uvec.apply_update(uvec.create_recursive(1, ())));
    assert_eq!(uvec.len(), 1);
    assert!(uvec.apply_update(uvec.insert(1, 9)));
    assert_eq!(uvec.get(1), Some(9));
}

#[test]
fn uvec_pop_on_empty_is_a_no_op() {
    let mut uvec: UVec<i32> = UVec::new();
    assert!(uvec.apply_update(uvec.pop()));
    assert!(uvec.is_empty());
    assert_eq!(uvec.last(), None);
    assert_eq!(uvec.get(0), None);
}

#[test]
fn uvec_nested_update_reaches_only_its_index() {
    let mut uvec: UVec<UVec<i32>> = UVec::new();
    uvec.apply_update(uvec.push(UVec::new()));
    uvec.apply_update(uvec.push(UVec::new()));
    assert!(uvec.apply_update(uvec.get_mut(1).push(4)));
    assert_eq!(uvec.get(1).unwrap().get(0), Some(4));
    assert!(uvec.get(0).unwrap().is_empty());
    assert!(uvec.apply_update(uvec.get_mut(1).clear()));
    assert!(uvec.get(1).unwrap().is_empty());
}
