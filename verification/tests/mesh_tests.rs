use the_code::mesh::{attribute_or_default, gather, order_by_index_count, sequential_indices};

#[test]
fn gather_follows_the_indices() {
    let values = vec![10u32, 20, 30];
    let indices = vec![2u32, 0, 0, 1, 2];
    assert_eq!(gather(&values, &indices), Some(vec![30, 10, 10, 20, 30]));
}

#[test]
fn gather_works_on_arrays() {
    let values = vec![[1u8, 2, 3], [4, 5, 6]];
    let indices = vec![1u32, 1, 0];
    assert_eq!(gather(&values, &indices), Some(vec![[4, 5, 6], [4, 5, 6], [1, 2, 3]]));
}

#[test]
fn gather_of_no_indices_is_empty() {
    let values: Vec<u32> = vec![];
    assert_eq!(gather(&values, &vec![]), Some(vec![]));
}

#[test]
fn gather_refuses_an_index_out_of_range() {
    let values = vec![1u32, 2, 3];
    assert_eq!(gather(&values, &vec![0, 3]), None);
    assert_eq!(gather(&values, &vec![0, 1, 2, 1, 7]), None);
    let empty: Vec<u32> = vec![];
    assert_eq!(gather(&empty, &vec![0]), None);
}

#[test]
fn sequential_indices_count_up() {
    assert_eq!(sequential_indices(0), Vec::<u32>::new());
    assert_eq!(sequential_indices(4), vec![0, 1, 2, 3]);
    let r = sequential_indices(1000);
    assert_eq!(r.len(), 1000);
    assert!(r.iter().enumerate().all(|(i, v)| *v as usize == i));
}

#[test]
fn flat_draw_visits_the_indexed_vertices() {
    let values = vec!['a', 'b', 'c', 'd'];
    let indices = vec![3u32, 1, 1, 0, 2, 3];
    let flat = gather(&values, &indices).unwrap();
    let order = sequential_indices(flat.len());
    let drawn = gather(&flat, &order).unwrap();
    assert_eq!(drawn, vec!['d', 'b', 'b', 'a', 'c', 'd']);
    assert_eq!(drawn, gather(&values, &indices).unwrap());
}

#[test]
fn attribute_defaults_fill_the_count() {
    assert_eq!(attribute_or_default(None, [0u8, 0, 1], 3), vec![[0, 0, 1]; 3]);
    assert_eq!(attribute_or_default(None, 7u32, 0), Vec::<u32>::new());
    assert_eq!(attribute_or_default(Some(vec![1u32, 2]), 7, 5), vec![1, 2]);
}

#[test]
fn model_with_more_indices_comes_first() {
    assert_eq!(order_by_index_count("a", "b", 5, 3), ("a", "b"));
    assert_eq!(order_by_index_count("a", "b", 3, 5), ("b", "a"));
    assert_eq!(order_by_index_count("a", "b", 4, 4), ("a", "b"));
}
