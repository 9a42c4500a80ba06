use orangutan_rl::util::flatten_rows;

#[test]
fn flatten_lays_rows_end_to_end() {
    let data = vec![vec![1.0f32, 2.0], vec![3.0, 4.0], vec![5.0, 6.0]];
    let (rows, cols, flat) = flatten_rows(&data).unwrap();
    assert_eq!((rows, cols), (3, 2));
    assert_eq!(flat, vec![1.0, 2.0, 3.0, 4.0, 5.0, 6.0]);
    assert_eq!(flat[2 * cols + 1], data[2][1]);
}

#[test]
fn flatten_rejects_ragged_rows() {
    let data = vec![vec![1, 2], vec![3]];
    assert!(flatten_rows(&data).is_none());
}

#[test]
fn flatten_single_row_and_empty_rows() {
    assert_eq!(flatten_rows(&vec![vec![7, 8, 9]]), Some((1, 3, vec![7, 8, 9])));
    assert_eq!(flatten_rows(&vec![Vec::<i32>::new(), vec![]]), Some((2, 0, vec![])));
}
