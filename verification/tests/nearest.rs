use procgen_types::nearest::{first_least, last_greatest, stable_order};

#[test]
fn the_first_of_the_least_keys_is_found() {
    let keys = vec![5, 2, 9, 2, 7];
    let none = vec![false; 5];
    assert_eq!(first_least(&keys, &none), Some(1));
    assert_eq!(last_greatest(&keys, &none), Some(2));
}

#[test]
fn skipped_places_are_not_chosen() {
    let keys = vec![5, 2, 9, 2, 9];
    let skip = vec![false, true, false, false, true];
    assert_eq!(first_least(&keys, &skip), Some(3));
    assert_eq!(last_greatest(&keys, &skip), Some(2));
}

#[test]
fn the_last_of_the_greatest_keys_is_found() {
    let keys = vec![4, 8, 1, 8, 3];
    let none = vec![false; 5];
    assert_eq!(last_greatest(&keys, &none), Some(3));
    assert_eq!(first_least(&vec![1, 1, 1], &vec![false; 3]), Some(0));
    assert_eq!(last_greatest(&vec![1, 1, 1], &vec![false; 3]), Some(2));
}

#[test]
fn nothing_is_found_where_every_place_is_skipped() {
    assert_eq!(first_least(&vec![1, 2], &vec![true, true]), None);
    assert_eq!(last_greatest(&vec![1, 2], &vec![true, true]), None);
    assert_eq!(first_least(&vec![], &vec![]), None);
    assert_eq!(last_greatest(&vec![], &vec![]), None);
}

#[test]
fn the_stable_order_keeps_equal_keys_in_place_order() {
    assert_eq!(stable_order(&vec![30, 10, 20, 10, 30, 0]), vec![5, 1, 3, 2, 0, 4]);
    assert_eq!(stable_order(&vec![]), Vec::<usize>::new());
    assert_eq!(stable_order(&vec![7, 7, 7]), vec![0, 1, 2]);
    assert_eq!(stable_order(&vec![3, 2, 1]), vec![2, 1, 0]);
}

#[test]
fn the_stable_order_agrees_with_the_standard_stable_sort() {
    let mut state = 12345u64;
    for round in 0..50 {
        let mut keys = Vec::new();
        for _ in 0..(round * 3 % 40) {
            state = state.wrapping_mul(6364136223846793005).wrapping_add(1442695040888963407);
            keys.push((state >> 60) as u64);
        }
        let mut want: Vec<usize> = (0..keys.len()).collect();
        want.sort_by_key(|i| keys[*i]);
        assert_eq!(stable_order(&keys), want);
    }
}
