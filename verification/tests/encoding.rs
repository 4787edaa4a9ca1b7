use committer::encoding::{keys_sorted, sort_ascending, sorted_and_padded_for_deposits};
use committer::operation::{AccountMap, AccountState};

fn accounts(ids: &[u32]) -> AccountMap {
    let mut map = AccountMap::new();
    for (i, id) in ids.iter().enumerate() {
        map.insert(*id, AccountState { nonce: i as u32, balance: 1000 + i as u128 });
    }
    map
}

#[test]
fn sort_ascending_orders_and_keeps_duplicates() {
    assert_eq!(sort_ascending(vec![5, 1, 4, 1, 3]), vec![1, 1, 3, 4, 5]);
}

#[test]
fn sort_ascending_of_nothing_is_nothing() {
    assert_eq!(sort_ascending(vec![]), Vec::<u64>::new());
}

#[test]
fn sort_ascending_handles_the_largest_value() {
    assert_eq!(sort_ascending(vec![u64::MAX, 0, 7]), vec![0, 7, u64::MAX]);
}

#[test]
fn keys_sorted_is_ascending() {
    assert_eq!(keys_sorted(accounts(&[42, 7, 19, 3])), vec![3, 7, 19, 42]);
}

#[test]
fn keys_sorted_of_empty_map_is_empty() {
    assert_eq!(keys_sorted(accounts(&[])), Vec::<u64>::new());
}

#[test]
fn keys_sorted_lists_a_key_once() {
    let mut map = accounts(&[9, 2]);
    map.insert(9, AccountState { nonce: 77, balance: 0 });
    assert_eq!(keys_sorted(map), vec![2, 9]);
}

#[test]
fn keys_sorted_widens_the_largest_identifier() {
    assert_eq!(keys_sorted(accounts(&[u32::MAX, 0])), vec![0, 4294967295]);
}

#[test]
fn keys_sorted_does_not_depend_on_insertion_order() {
    assert_eq!(keys_sorted(accounts(&[1, 2, 3, 4, 5, 6])), keys_sorted(accounts(&[6, 4, 2, 5, 3, 1])));
}

#[test]
fn padded_batch_has_sorted_ids_then_filler() {
    let batch = sorted_and_padded_for_deposits(accounts(&[30, 10, 20]), 8, 1);
    assert_eq!(batch, vec![10, 20, 30, 1, 1, 1, 1, 1]);
}

#[test]
fn padded_batch_of_full_width_has_no_filler() {
    let batch = sorted_and_padded_for_deposits(accounts(&[4, 3, 2, 1]), 4, 99);
    assert_eq!(batch, vec![1, 2, 3, 4]);
}

#[test]
fn padded_batch_of_empty_map_is_all_filler() {
    let batch = sorted_and_padded_for_deposits(accounts(&[]), 3, 1);
    assert_eq!(batch, vec![1, 1, 1]);
}

#[test]
fn padded_batch_of_width_zero_is_empty() {
    let batch = sorted_and_padded_for_deposits(accounts(&[]), 0, 1);
    assert_eq!(batch, Vec::<u64>::new());
}

#[test]
fn padded_batch_of_width_one() {
    assert_eq!(sorted_and_padded_for_deposits(accounts(&[5]), 1, 1), vec![5]);
    assert_eq!(sorted_and_padded_for_deposits(accounts(&[]), 1, 1), vec![1]);
}

#[test]
fn padded_batch_keeps_its_width_for_every_size() {
    let ids: Vec<u32> = vec![50, 40, 30, 20, 10];
    for k in 0..=ids.len() {
        let batch = sorted_and_padded_for_deposits(accounts(&ids[..k]), 5, 0);
        assert_eq!(batch.len(), 5);
        let mut front: Vec<u64> = ids[..k].iter().map(|id| *id as u64).collect();
        front.sort();
        assert_eq!(&batch[..k], &front[..]);
        assert!(batch[k..].iter().all(|id| *id == 0));
    }
}
