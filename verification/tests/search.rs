use pysect::{bisect_rust, bisect_rust_imp, Double, SortedView};

fn doubles(values: &[f64]) -> Vec<Double> {
    values.iter().map(|x| Double::from_bits(x.to_bits())).collect()
}

fn double(value: f64) -> Double {
    Double::from_bits(value.to_bits())
}

/// The first index whose element is at or above `value`, found by walking.
fn leftmost(list: &[i64], value: i64) -> usize {
    let mut i = 0;
    while i < list.len() && list[i] < value {
        i += 1;
    }
    i
}

#[test]
fn test_int() {
    let v = vec![1, 2, 3, 4, 6, 8, 10];
    let s = 7;
    let r = bisect_rust_imp(&v, &s, 0, None);
    assert_eq!(r, 5);
}

#[test]
fn test_float() {
    let v = vec![1., 5.5, 11., 19.3];
    assert_eq!(bisect_rust(doubles(&v), double(0.)), 0);
    assert_eq!(bisect_rust(doubles(&v), double(20.)), 4);
    assert_eq!(bisect_rust(doubles(&v), double(10.)), 2);
}

#[test]
fn empty_sequence_yields_zero() {
    let none: Vec<f64> = Vec::new();
    for v in [0.0, -1.5, 7.0, f64::INFINITY, f64::NEG_INFINITY, f64::NAN] {
        assert_eq!(bisect_rust(doubles(&none), double(v)), 0);
    }
    let no_ints: Vec<i32> = Vec::new();
    assert_eq!(bisect_rust_imp(&no_ints, &3, 0, None), 0);
    assert_eq!(bisect_rust_imp(&no_ints, &3, 0, Some(0)), 0);
    assert_eq!(bisect_rust_imp(&no_ints, &3, 0, Some(17)), 0);
}

#[test]
fn single_element_match_is_leftmost() {
    assert_eq!(bisect_rust(doubles(&[5.0]), double(5.0)), 0);
    assert_eq!(bisect_rust(doubles(&[5.0]), double(4.0)), 0);
    assert_eq!(bisect_rust(doubles(&[5.0]), double(6.0)), 1);
}

#[test]
fn duplicates_give_first_match() {
    let v = doubles(&[1.0, 3.0, 3.0, 3.0, 5.0]);
    assert_eq!(bisect_rust(v.clone(), double(3.0)), 1);
    assert_eq!(bisect_rust(v.clone(), double(1.0)), 0);
    assert_eq!(bisect_rust(v.clone(), double(5.0)), 4);
    let ints = vec![2i64, 2, 2, 2, 2, 2];
    assert_eq!(bisect_rust_imp(&ints, &2, 0, None), 0);
    assert_eq!(bisect_rust_imp(&ints, &3, 0, None), 6);
    assert_eq!(bisect_rust_imp(&ints, &1, 0, None), 0);
}

#[test]
fn below_first_is_zero_and_above_last_is_len() {
    let v = [-4.5, -1.0, 0.0, 2.25, 1e300];
    assert_eq!(bisect_rust(doubles(&v), double(-4.6)), 0);
    assert_eq!(bisect_rust(doubles(&v), double(f64::NEG_INFINITY)), 0);
    assert_eq!(bisect_rust(doubles(&v), double(1e301)), 5);
    assert_eq!(bisect_rust(doubles(&v), double(f64::INFINITY)), 5);
}

#[test]
fn result_is_within_bounds_even_when_unsorted() {
    let lists: Vec<Vec<i64>> = vec![
        vec![5, 1, 9, 3],
        vec![9, 8, 7, 6, 5, 4, 3, 2, 1],
        vec![0, 100, 0, 100, 0],
        vec![3],
    ];
    for list in &lists {
        for value in -2..103 {
            let r = bisect_rust_imp(list, &value, 0, None);
            assert!(r <= list.len());
        }
    }
}

#[test]
fn unsorted_input_follows_the_halving() {
    // mid = 1: 3 <= 1 fails, go right; mid = 2: 3 <= 9 holds, window empties at 2
    assert_eq!(bisect_rust_imp(&[5, 1, 9], &3, 0, None), 2);
    // mid = 2: 4 <= 7 holds; mid = 0: 4 <= 9 holds at index 0
    assert_eq!(bisect_rust_imp(&[9, 8, 7, 6, 5], &4, 0, None), 0);
}

#[test]
fn agrees_with_a_linear_scan_on_sorted_input() {
    for len in 0..12usize {
        for step in 0..3i64 {
            let list: Vec<i64> = (0..len as i64).map(|i| i * step + (i / 3)).collect();
            for value in -1..40 {
                assert_eq!(bisect_rust_imp(&list, &value, 0, None), leftmost(&list, value));
            }
        }
    }
}

#[test]
fn searching_for_an_element_finds_its_first_copy() {
    let list = vec![1u32, 1, 2, 4, 4, 4, 7, 9, 9];
    for i in 0..list.len() {
        let r = bisect_rust_imp(&list, &list[i], 0, None);
        assert!(r <= i);
        assert_eq!(list[r], list[i]);
        assert!(list[..r].iter().all(|x| *x != list[i]));
    }
}

#[test]
fn window_bounds_are_honoured() {
    let v = vec![1, 2, 3, 4, 6, 8, 10];
    // the window 2 ..= 4 holds 3, 4, 6
    assert_eq!(bisect_rust_imp(&v, &7, 2, Some(4)), 5);
    assert_eq!(bisect_rust_imp(&v, &0, 2, Some(4)), 2);
    assert_eq!(bisect_rust_imp(&v, &4, 2, Some(4)), 3);
    // an explicit last index is the default
    assert_eq!(bisect_rust_imp(&v, &7, 0, Some(6)), 5);
    // an empty window yields its lower end
    assert_eq!(bisect_rust_imp(&v, &7, 3, Some(2)), 3);
    assert_eq!(bisect_rust_imp(&v, &7, 7, None), 7);
}

#[test]
fn upper_bound_past_the_end_is_defined() {
    let v = vec![1, 2, 3, 4, 6, 8, 10];
    assert_eq!(bisect_rust_imp(&v, &7, 0, Some(7)), 5);
    assert_eq!(bisect_rust_imp(&v, &7, 0, Some(1000)), 5);
    assert_eq!(bisect_rust_imp(&v, &11, 0, Some(usize::MAX)), 7);
    assert_eq!(bisect_rust_imp(&v, &0, 0, Some(usize::MAX)), 0);
    // a lower end past the end comes back unchanged
    assert_eq!(bisect_rust_imp(&v, &7, 9, None), 9);
    assert_eq!(bisect_rust_imp(&v, &7, 9, Some(20)), 9);
}

#[test]
fn zero_guard_stops_at_index_zero() {
    // the probe at index 0 answers true, and the search must not step below it
    assert_eq!(bisect_rust_imp(&[4u64], &4, 0, None), 0);
    assert_eq!(bisect_rust_imp(&[4u64, 5], &1, 0, None), 0);
    assert_eq!(bisect_rust_imp(&[4usize, 5, 6], &0, 0, Some(0)), 0);
}

#[test]
fn nan_query_goes_right() {
    let v = [1.0, 5.5, 11.0, 19.3];
    assert_eq!(bisect_rust(doubles(&v), double(f64::NAN)), 4);
    assert_eq!(bisect_rust(doubles(&[]), double(f64::NAN)), 0);
}

#[test]
fn nan_entries_compare_false() {
    // mid = 1 holds NaN: 0.5 <= NaN fails, go right; mid = 2: 0.5 <= 3 holds
    let v = [1.0, f64::NAN, 3.0];
    assert_eq!(bisect_rust(doubles(&v), double(0.5)), 2);
    assert_eq!(bisect_rust(doubles(&[f64::NAN]), double(f64::NAN)), 1);
}

#[test]
fn every_integer_key_type_searches() {
    assert_eq!(bisect_rust_imp(&[-3i32, 0, 3], &1, 0, None), 2);
    assert_eq!(bisect_rust_imp(&[-3i64, 0, 3], &-3, 0, None), 0);
    assert_eq!(bisect_rust_imp(&[1u32, 2, 3], &4, 0, None), 3);
    assert_eq!(bisect_rust_imp(&[1u64, 2, u64::MAX], &u64::MAX, 0, None), 2);
    assert_eq!(bisect_rust_imp(&[1usize, 2, 3], &2, 0, None), 1);
}

#[test]
fn slices_vectors_and_arrays_are_views() {
    let array = [1i32, 2, 3, 4, 6, 8, 10];
    let vector = array.to_vec();
    let slice: &[i32] = &array[1..];
    assert_eq!(bisect_rust_imp(&array, &7, 0, None), 5);
    assert_eq!(bisect_rust_imp(&vector, &7, 0, None), 5);
    assert_eq!(bisect_rust_imp(slice, &7, 0, None), 4);
    assert_eq!(SortedView::len(slice), 6);
    assert_eq!(SortedView::get(&vector, 4), 6);
    assert_eq!(SortedView::get(&array, 0), 1);
}
