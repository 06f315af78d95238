use ota_agent::errors::UpdateError;
use ota_agent::storage::StorageBank;

#[test]
fn commit_replaces_the_active_image() {
    let mut bank = StorageBank::new(vec![1, 2, 3]);
    bank.open_transaction().unwrap();
    bank.write_chunk(&[9, 8]);
    bank.write_chunk(&[7]);
    bank.commit();
    assert_eq!(bank.active_image(), &vec![9, 8, 7]);
    assert!(!bank.is_transaction_open());
}

#[test]
fn abort_leaves_the_active_image_untouched() {
    let mut bank = StorageBank::new(vec![1, 2, 3]);
    bank.open_transaction().unwrap();
    bank.write_chunk(&[9, 8, 7, 6]);
    bank.abort();
    assert_eq!(bank.active_image(), &vec![1, 2, 3]);
    assert!(!bank.is_transaction_open());
}

#[test]
fn second_open_is_rejected() {
    let mut bank = StorageBank::new(vec![1]);
    assert!(bank.open_transaction().is_ok());
    let second = bank.open_transaction();
    assert!(matches!(second, Err(UpdateError::TransactionUnavailable)));
    assert!(bank.is_transaction_open());
}

#[test]
fn slot_is_reusable_after_an_abort() {
    let mut bank = StorageBank::new(vec![1]);
    bank.open_transaction().unwrap();
    bank.write_chunk(&[5]);
    bank.abort();
    assert!(bank.open_transaction().is_ok());
    bank.write_chunk(&[6]);
    bank.commit();
    assert_eq!(bank.active_image(), &vec![6]);
}

#[test]
fn staged_bytes_of_an_aborted_transaction_never_reappear() {
    let mut bank = StorageBank::new(vec![1]);
    bank.open_transaction().unwrap();
    bank.write_chunk(&[5, 5, 5]);
    bank.abort();
    bank.open_transaction().unwrap();
    bank.write_chunk(&[6]);
    bank.commit();
    assert_eq!(bank.active_image(), &vec![6]);
}
