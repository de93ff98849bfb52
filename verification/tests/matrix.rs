use rtsam::base::matrix::SymmetricBlockMatrix;

#[test]
fn symmetric_block_matrix_new() {
    let s = SymmetricBlockMatrix::new();
    println!("{:?}", s);
}

#[test]
fn symmetric_block_matrix_from_dims() {
    let v = vec![3, 3, 2, 1];
    let s = SymmetricBlockMatrix::from_dimensions(&v);
    println!("{:?}", s);
}

#[test]
fn symmetric_block_matrix_get_indices() {
    let v = vec![3, 3, 2, 1];
    let s = SymmetricBlockMatrix::from_dimensions(&v);

    let ind = s.calc_indices(1, 2, 1, 1);

    assert_eq!(ind, (3, 6, 3, 2));
}

#[test]
fn offsets_are_running_sums() {
    let s = SymmetricBlockMatrix::from_dimensions(&vec![3, 3, 2, 1]);
    assert_eq!(s.num_blocks(), 4);
    assert_eq!(s.offset(0), 0);
    assert_eq!(s.offset(1), 3);
    assert_eq!(s.offset(2), 6);
    assert_eq!(s.offset(3), 8);
    assert_eq!(s.offset(4), 9);
}

#[test]
fn no_blocks_gives_a_single_zero_offset() {
    let s = SymmetricBlockMatrix::from_dimensions(&vec![]);
    assert_eq!(s.num_blocks(), 0);
    assert_eq!(s.offset(0), 0);
    assert_eq!(s.calc_indices(0, 0, 0, 0), (0, 0, 0, 0));
}

#[test]
fn calc_indices_spans_several_blocks() {
    let s = SymmetricBlockMatrix::from_dimensions(&vec![3, 3, 2, 1]);
    assert_eq!(s.calc_indices(0, 0, 4, 4), (0, 0, 9, 9));
    assert_eq!(s.calc_indices(0, 1, 2, 3), (0, 3, 6, 6));
    assert_eq!(s.calc_indices(3, 3, 1, 0), (8, 8, 1, 0));
}

#[test]
fn empty_blocks_share_an_offset() {
    let s = SymmetricBlockMatrix::from_dimensions(&vec![0, 5, 0]);
    assert_eq!(s.num_blocks(), 3);
    assert_eq!(s.offset(1), 0);
    assert_eq!(s.offset(2), 5);
    assert_eq!(s.offset(3), 5);
    assert_eq!(s.calc_indices(2, 0, 1, 1), (5, 0, 0, 0));
}
