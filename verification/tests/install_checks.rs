use ota_agent::errors::UpdateError;
use ota_agent::install::install_image;
use ota_agent::storage::StorageBank;

fn bank_with_old_image() -> StorageBank {
    StorageBank::new(vec![0xAA; 16])
}

#[test]
fn exact_declared_length_commits() {
    let mut bank = bank_with_old_image();
    let chunks = vec![vec![1u8; 512], vec![2u8; 488]];
    let r = install_image(&mut bank, Some(1000), &chunks, true);
    assert!(r.is_ok());
    let mut expected = vec![1u8; 512];
    expected.extend_from_slice(&[2u8; 488]);
    assert_eq!(bank.active_image(), &expected);
    assert!(!bank.is_transaction_open());
}

#[test]
fn truncated_stream_aborts() {
    let mut bank = bank_with_old_image();
    let chunks = vec![vec![1u8; 800]];
    let r = install_image(&mut bank, Some(1000), &chunks, true);
    assert!(matches!(r, Err(UpdateError::VerificationFailed)));
    assert_eq!(bank.active_image(), &vec![0xAA; 16]);
    assert!(!bank.is_transaction_open());
}

#[test]
fn overshooting_chunk_aborts() {
    let mut bank = bank_with_old_image();
    let chunks = vec![vec![1u8; 600], vec![2u8; 600]];
    let r = install_image(&mut bank, Some(1000), &chunks, true);
    assert!(matches!(r, Err(UpdateError::VerificationFailed)));
    assert_eq!(bank.active_image(), &vec![0xAA; 16]);
}

#[test]
fn reading_stops_once_declared_length_is_reached() {
    let mut bank = bank_with_old_image();
    let chunks = vec![vec![1u8; 500], vec![2u8; 500], vec![3u8; 500]];
    let r = install_image(&mut bank, Some(1000), &chunks, true);
    assert!(r.is_ok());
    let mut expected = vec![1u8; 500];
    expected.extend_from_slice(&[2u8; 500]);
    assert_eq!(bank.active_image(), &expected);
}

#[test]
fn read_error_before_declared_length_aborts() {
    let mut bank = bank_with_old_image();
    let chunks = vec![vec![1u8; 500]];
    let r = install_image(&mut bank, Some(1000), &chunks, false);
    assert!(matches!(r, Err(UpdateError::TransferIO)));
    assert_eq!(bank.active_image(), &vec![0xAA; 16]);
    assert!(!bank.is_transaction_open());
}

#[test]
fn read_error_after_declared_length_reached_is_moot() {
    let mut bank = bank_with_old_image();
    let chunks = vec![vec![1u8; 1000]];
    let r = install_image(&mut bank, Some(1000), &chunks, false);
    assert!(r.is_ok());
    assert_eq!(bank.active_image(), &vec![1u8; 1000]);
}

#[test]
fn unknown_length_nonempty_stream_commits() {
    let mut bank = bank_with_old_image();
    let chunks = vec![vec![1u8; 100], vec![2u8; 50]];
    let r = install_image(&mut bank, None, &chunks, true);
    assert!(r.is_ok());
    let mut expected = vec![1u8; 100];
    expected.extend_from_slice(&[2u8; 50]);
    assert_eq!(bank.active_image(), &expected);
}

#[test]
fn unknown_length_empty_stream_aborts() {
    let mut bank = bank_with_old_image();
    let chunks: Vec<Vec<u8>> = Vec::new();
    let r = install_image(&mut bank, None, &chunks, true);
    assert!(matches!(r, Err(UpdateError::VerificationFailed)));
    assert_eq!(bank.active_image(), &vec![0xAA; 16]);
}

#[test]
fn unknown_length_unclean_end_aborts() {
    let mut bank = bank_with_old_image();
    let chunks = vec![vec![1u8; 100]];
    let r = install_image(&mut bank, None, &chunks, false);
    assert!(matches!(r, Err(UpdateError::TransferIO)));
    assert_eq!(bank.active_image(), &vec![0xAA; 16]);
}

#[test]
fn empty_chunk_ends_the_stream() {
    let mut bank = bank_with_old_image();
    let chunks = vec![vec![1u8; 100], Vec::new(), vec![2u8; 100]];
    let r = install_image(&mut bank, None, &chunks, false);
    assert!(r.is_ok());
    assert_eq!(bank.active_image(), &vec![1u8; 100]);
}

#[test]
fn declared_zero_length_commits_an_empty_image() {
    let mut bank = bank_with_old_image();
    let chunks = vec![vec![1u8; 100]];
    let r = install_image(&mut bank, Some(0), &chunks, true);
    assert!(r.is_ok());
    assert_eq!(bank.active_image(), &Vec::<u8>::new());
}

#[test]
fn open_transaction_blocks_the_pipeline() {
    let mut bank = bank_with_old_image();
    bank.open_transaction().unwrap();
    let chunks = vec![vec![1u8; 8]];
    let r = install_image(&mut bank, Some(8), &chunks, true);
    assert!(matches!(r, Err(UpdateError::TransactionUnavailable)));
    assert!(bank.is_transaction_open());
    assert_eq!(bank.active_image(), &vec![0xAA; 16]);
}
