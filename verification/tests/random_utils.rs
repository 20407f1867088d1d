use snake_core::utils::choose_random;
use snake_core::utils::choose_random_n;
use snake_core::utils::RandomChooser;

#[test]
fn choose_random_on_empty_slice_is_none() {
    let v: Vec<u32> = Vec::new();
    assert_eq!(choose_random(&v), None);
}

#[test]
fn choose_random_on_singleton_returns_the_element() {
    let v = vec![7u32];
    assert_eq!(choose_random(&v), Some(7));
}

#[test]
fn choose_random_returns_an_element_of_the_slice() {
    let v = vec![2u32, 4, 6, 8];
    for _ in 0..50 {
        let got = choose_random(&v).unwrap();
        assert!(v.contains(&got));
    }
}

#[test]
fn choose_random_n_with_large_n_is_a_permutation() {
    let v = vec![1u32, 2, 3, 4, 5];
    let mut got = choose_random_n(&v, 9);
    assert_eq!(got.len(), 5);
    got.sort();
    assert_eq!(got, v);
}

#[test]
fn choose_random_n_picks_distinct_elements() {
    let v: Vec<u32> = (0..20).collect();
    for _ in 0..20 {
        let mut got = choose_random_n(&v, 6);
        assert_eq!(got.len(), 6);
        for x in &got {
            assert!(v.contains(x));
        }
        got.sort();
        got.dedup();
        assert_eq!(got.len(), 6, "no element is picked twice");
    }
}

#[test]
fn choose_random_n_with_zero_is_empty() {
    let v = vec![1u32, 2, 3];
    assert_eq!(choose_random_n(&v, 0).len(), 0);
}

#[test]
fn random_chooser_trait_mirrors_the_free_functions() {
    let v = vec![42u32];
    assert_eq!(v.choose_random(), Some(42));
    let none: Vec<u32> = Vec::new();
    assert_eq!(none.choose_random(), None);
    let many = vec![1u32, 2, 3];
    let mut got = many.choose_random_n(3);
    got.sort();
    assert_eq!(got, many);
    assert_eq!(many.choose_random_n(2).len(), 2);
}
