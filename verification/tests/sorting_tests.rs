use dm_assistant::utils::clock::Timestamp;
use dm_assistant::utils::sorting::{sorted_order, SortKey};

fn at(secs: i64, nanos: u32) -> Timestamp {
    Timestamp { secs, nanos }
}

fn key(rank: u8, first: i64, second: i64) -> SortKey {
    SortKey { rank, first: at(first, 0), second: at(second, 0) }
}

#[test]
fn later_timestamps_compare_as_later() {
    assert!(at(2, 0).is_after(&at(1, 999_999_999)));
    assert!(at(1, 5).is_after(&at(1, 4)));
    assert!(!at(1, 5).is_after(&at(1, 5)));
    assert!(!at(-3, 0).is_after(&at(-2, 0)));
}

#[test]
fn keys_are_compared_rank_first_then_the_two_times() {
    assert!(key(1, 0, 0).comes_before(&key(0, 9, 9)));
    assert!(key(1, 5, 0).comes_before(&key(1, 4, 9)));
    assert!(key(1, 5, 3).comes_before(&key(1, 5, 2)));
    assert!(!key(1, 5, 3).comes_before(&key(1, 5, 3)));
    assert!(!key(0, 9, 9).comes_before(&key(1, 0, 0)));
}

#[test]
fn order_is_descending_and_stable() {
    let keys = vec![key(0, 0, 3), key(1, 10, 0), key(0, 0, 7), key(1, 20, 0), key(1, 10, 0)];
    assert_eq!(sorted_order(&keys), vec![3, 1, 4, 2, 0]);
    assert_eq!(sorted_order(&Vec::new()), Vec::<usize>::new());
    assert_eq!(sorted_order(&vec![key(0, 0, 0)]), vec![0]);
    let equal = vec![key(2, 1, 1), key(2, 1, 1), key(2, 1, 1)];
    assert_eq!(sorted_order(&equal), vec![0, 1, 2]);
}

#[test]
fn the_later_of_two_times() {
    assert_eq!(Timestamp::latest(at(1, 0), at(2, 0)), at(2, 0));
    assert_eq!(Timestamp::latest(at(2, 1), at(2, 0)), at(2, 1));
    assert_eq!(Timestamp::latest(at(3, 3), at(3, 3)), at(3, 3));
}
