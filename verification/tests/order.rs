use pali_server::order::{listing_order, listing_selection, rank_above};

#[test]
fn rank_above_compares_first_then_second_component() {
    assert!(rank_above((2, 0), (1, 9)));
    assert!(!rank_above((1, 9), (2, 0)));
    assert!(rank_above((1, 5), (1, 4)));
    assert!(!rank_above((1, 4), (1, 5)));
    assert!(!rank_above((1, 4), (1, 4)));
    assert!(rank_above((i64::MAX, 0), (i64::MIN, 0)));
}

#[test]
fn listing_order_of_nothing_is_empty() {
    assert_eq!(listing_order(&vec![]), Vec::<usize>::new());
}

#[test]
fn listing_order_puts_the_highest_rank_first() {
    let ranks = vec![(10, 0), (30, 0), (20, 0)];
    assert_eq!(listing_order(&ranks), vec![1, 2, 0]);
}

#[test]
fn listing_order_breaks_ties_by_the_second_component() {
    let ranks = vec![(1, 5), (2, 1), (1, 7), (2, 3)];
    assert_eq!(listing_order(&ranks), vec![3, 1, 2, 0]);
}

#[test]
fn listing_order_keeps_equal_rows_in_stored_order() {
    let ranks = vec![(5, 5), (7, 0), (5, 5), (5, 5), (7, 0)];
    assert_eq!(listing_order(&ranks), vec![1, 4, 0, 2, 3]);
}

#[test]
fn listing_order_lists_every_row_once() {
    let ranks = vec![(3, 1), (-4, 2), (3, 1), (0, 0), (9, -9), (-4, 3)];
    let mut order = listing_order(&ranks);
    order.sort();
    assert_eq!(order, vec![0, 1, 2, 3, 4, 5]);
}

#[test]
fn listing_selection_keeps_only_wanted_rows_in_order() {
    let ranks = vec![(10, 0), (30, 0), (20, 0), (40, 0)];
    let wanted = vec![true, false, true, true];
    assert_eq!(listing_selection(&ranks, &wanted), vec![3, 2, 0]);
    assert_eq!(listing_selection(&ranks, &vec![false; 4]), Vec::<usize>::new());
    assert_eq!(listing_selection(&ranks, &vec![true; 4]), listing_order(&ranks));
}
