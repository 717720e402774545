use genomic_structures::functions::thresholder::{cumsum, cumulative_table, table};

#[test]
fn table_test01() {
    assert_eq!(table(&vec![2, 3, 1, 2, 3, 2], 5), vec![1, 3, 2, 0, 0]);
}

#[test]
fn table_leaves_out_piles_of_the_table_size_and_more() {
    assert_eq!(table(&vec![1, 4, 5, 6, 4], 5), vec![1, 0, 0, 2, 0]);
    assert_eq!(table(&vec![1, 2, 3], 1), vec![0]);
    assert_eq!(table(&vec![1, 2, 3], 0), Vec::<u64>::new());
    assert_eq!(table(&vec![usize::MAX, 1], 2), vec![1, 0]);
}

#[test]
fn table_leaves_out_empty_piles() {
    assert_eq!(table(&vec![0, 1, 0, 2], 4), vec![1, 1, 0, 0]);
    assert_eq!(table(&vec![], 3), vec![0, 0, 0]);
}

#[test]
fn table_does_not_depend_on_the_order() {
    assert_eq!(table(&vec![2, 3, 1, 2, 3, 2], 5), table(&vec![3, 3, 2, 2, 2, 1], 5));
}

#[test]
fn cumsum_test01() {
    assert_eq!(cumsum(vec![0, 1, 2, 3, 4]), vec![0, 1, 3, 6, 10]);
}

#[test]
fn cumsum_test02() {
    assert_eq!(
        cumsum(vec![0, 1, 2, 3, 4, 5, 6, 7, 8, 9, 10]),
        vec![0, 1, 3, 6, 10, 15, 21, 28, 36, 45, 55]
    );
}

#[test]
fn cumsum_test03() {
    assert_eq!(
        cumsum(vec![10, 9, 8, 7, 6, 5, 4, 3, 2, 1, 0]),
        vec![10, 19, 27, 34, 40, 45, 49, 52, 54, 55, 55]
    );
}

#[test]
fn cumsum_at_the_ends_of_the_range() {
    assert_eq!(cumsum(vec![]), Vec::<u64>::new());
    assert_eq!(cumsum(vec![u64::MAX]), vec![u64::MAX]);
    assert_eq!(cumsum(vec![u64::MAX - 1, 1, 0]), vec![u64::MAX - 1, u64::MAX, u64::MAX]);
}

#[test]
fn cumulative_table_of_piles() {
    assert_eq!(cumulative_table(&vec![2, 3, 1, 2, 3, 2], 5), vec![1, 4, 6, 6, 6]);
    assert_eq!(cumulative_table(&vec![2, 3, 1, 2, 3, 2], 25)[..4], [1, 4, 6, 6]);
    assert_eq!(cumulative_table(&vec![0, 9], 3), vec![0, 0, 0]);
}
