//! Stamping under a mocked NEAR host.

use near_sdk::{MockedBlockchain, VMContext};
use proof_of_timestamp::commitment::commit;
use proof_of_timestamp::{ProofOfTimestamp, TimestampedFile};

/// Keccak-256 of `abc123100`.
const ABC123_AT_100: [u8; 32] = [
    0xa9, 0x0d, 0x72, 0xf8, 0x85, 0x9a, 0xdf, 0x72, 0xa1, 0xdc, 0xbc, 0x7b, 0x4d, 0x9d, 0xa9, 0xff,
    0x82, 0x32, 0xfe, 0x91, 0xce, 0x46, 0x21, 0x71, 0x4e, 0x30, 0xd7, 0x9c, 0xa5, 0xca, 0x5f, 0x31,
];

/// Keccak-256 of `abc1230`.
const ABC123_AT_0: [u8; 32] = [
    0x9e, 0x0a, 0x83, 0x98, 0xcc, 0x59, 0xef, 0xa5, 0xf2, 0xf1, 0xed, 0x8e, 0xe4, 0x97, 0x54, 0x55,
    0xe0, 0x5f, 0xb8, 0x16, 0x29, 0xa4, 0x85, 0xc4, 0x95, 0xec, 0x33, 0xe9, 0xb3, 0x98, 0xc3, 0x42,
];

/// Keccak-256 of the bytes `c3 a9 37`, which is `é7` in UTF-8.
const E_ACUTE_AT_7: [u8; 32] = [
    0x6e, 0x3d, 0x2f, 0x47, 0x07, 0x25, 0x61, 0x3a, 0x8e, 0x73, 0xca, 0x69, 0x9a, 0xdb, 0xeb, 0xca,
    0x63, 0x34, 0xc4, 0x3b, 0x5a, 0x0b, 0xcb, 0x24, 0xcf, 0x8f, 0x1e, 0x69, 0xa5, 0xad, 0x86, 0x92,
];

/// Keccak-256 of `0`.
const EMPTY_AT_0: [u8; 32] = [
    0x04, 0x48, 0x52, 0xb2, 0xa6, 0x70, 0xad, 0xe5, 0x40, 0x7e, 0x78, 0xfb, 0x28, 0x63, 0xc5, 0x1d,
    0xe9, 0xfc, 0xb9, 0x65, 0x42, 0xa0, 0x71, 0x86, 0xfe, 0x3a, 0xed, 0xa6, 0xbb, 0x8a, 0x11, 0x6d,
];

// mock the context for testing
fn get_context(input: Vec<u8>, is_view: bool, block_timestamp: u64) -> VMContext {
    VMContext {
        current_account_id: "alice_near".to_string(),
        signer_account_id: "bob_near".to_string(),
        signer_account_pk: vec![0, 1, 2],
        predecessor_account_id: "carol_near".to_string(),
        input,
        block_index: 0,
        block_timestamp,
        account_balance: 0,
        account_locked_balance: 0,
        storage_usage: 0,
        attached_deposit: 0,
        prepaid_gas: 10u64.pow(18),
        random_seed: vec![0, 1, 2],
        is_view,
        output_data_receivers: vec![],
        epoch_height: 19,
    }
}

/// Installs a mocked host with `context` on the calling thread.
fn testing_env(context: VMContext) {
    let storage = match near_sdk::env::take_blockchain_interface() {
        Some(mut host) => host.as_mut_mocked_blockchain().unwrap().take_storage(),
        None => Default::default(),
    };
    near_sdk::env::set_blockchain_interface(Box::new(MockedBlockchain::new(
        context,
        Default::default(),
        Default::default(),
        vec![],
        storage,
        Default::default(),
    )));
}

#[test]
fn stamp_then_get() {
    let block_timestamp: u64 = 100;
    let file_hash = "sample file hash".to_string();
    let context = get_context(vec![], false, block_timestamp);
    testing_env(context);
    let mut contract = ProofOfTimestamp::default();
    contract.stamp(file_hash.clone());
    let timestamped_file_hash =
        near_sdk::env::keccak256(format!("{}{}", file_hash, block_timestamp.to_string()).as_bytes());
    let expected_result = TimestampedFile::new(block_timestamp, timestamped_file_hash);
    assert_eq!(expected_result, contract.get_stamp(file_hash));
}

#[test]
fn get_default_stamp() {
    let block_timestamp: u64 = 100;
    let context = get_context(vec![], true, block_timestamp);
    testing_env(context);
    let contract = ProofOfTimestamp::default();
    assert_eq!(TimestampedFile::default(), contract.get_stamp("howdy".to_string()));
}

#[test]
fn stamp_binds_the_hash_to_the_block_time() {
    testing_env(get_context(vec![], false, 100));
    let mut ledger = ProofOfTimestamp::default();
    ledger.stamp("abc123".to_string());
    let record = ledger.get_stamp("abc123".to_string());
    assert_eq!(record.timestamp(), 100);
    assert_eq!(record.commitment(), &ABC123_AT_100[..]);
    let missing = ledger.get_stamp("nonexistent".to_string());
    assert_eq!(missing.timestamp(), 0);
    assert_eq!(missing.commitment(), &[0u8; 0][..]);
}

#[test]
fn stamp_hands_back_the_line_to_log() {
    testing_env(get_context(vec![], false, 100));
    let mut ledger = ProofOfTimestamp::default();
    assert_eq!(ledger.stamp("abc123".to_string()), "Stamping file 'abc123' at '100'");
    testing_env(get_context(vec![], false, u64::MAX));
    assert_eq!(ledger.stamp("".to_string()), "Stamping file '' at '18446744073709551615'");
    assert_eq!(ledger.get_stamp("".to_string()).timestamp(), u64::MAX);
}

#[test]
fn stamp_reads_the_time_anew_on_each_call() {
    testing_env(get_context(vec![], false, 42));
    let mut ledger = ProofOfTimestamp::default();
    ledger.stamp("abc123".to_string());
    assert_eq!(ledger.get_stamp("abc123".to_string()).timestamp(), 42);
    testing_env(get_context(vec![], false, 43));
    ledger.stamp("abc123".to_string());
    assert_eq!(ledger.get_stamp("abc123".to_string()).timestamp(), 43);
}

#[test]
fn stamp_at_round_trip() {
    testing_env(get_context(vec![], false, 5));
    let mut ledger = ProofOfTimestamp::default();
    ledger.stamp_at("abc123".to_string(), 100);
    assert_eq!(
        ledger.get_stamp("abc123".to_string()),
        TimestampedFile::new(100, ABC123_AT_100.to_vec())
    );
}

#[test]
fn restamp_replaces_the_earlier_record() {
    testing_env(get_context(vec![], false, 5));
    let mut ledger = ProofOfTimestamp::default();
    ledger.stamp_at("abc123".to_string(), 0);
    assert_eq!(
        ledger.get_stamp("abc123".to_string()),
        TimestampedFile::new(0, ABC123_AT_0.to_vec())
    );
    ledger.stamp_at("abc123".to_string(), 100);
    assert_eq!(
        ledger.get_stamp("abc123".to_string()),
        TimestampedFile::new(100, ABC123_AT_100.to_vec())
    );
    assert_eq!(ledger.records().len(), 1);
}

#[test]
fn same_stamps_give_the_same_answers() {
    testing_env(get_context(vec![], false, 5));
    let history: Vec<(&str, u64)> = vec![("a", 1), ("b", 2), ("a", 3), ("", 4), ("b", 2)];
    let mut one = ProofOfTimestamp::default();
    let mut other = ProofOfTimestamp::default();
    for (file_hash, timestamp) in history.iter() {
        one.stamp_at(file_hash.to_string(), *timestamp);
    }
    for (file_hash, timestamp) in history.iter() {
        other.stamp_at(file_hash.to_string(), *timestamp);
    }
    for file_hash in ["a", "b", "", "c"] {
        assert_eq!(one.get_stamp(file_hash.to_string()), other.get_stamp(file_hash.to_string()));
    }
    assert_eq!(one.get_stamp("a".to_string()).timestamp(), 3);
    assert_eq!(one.get_stamp("b".to_string()).timestamp(), 2);
    assert_eq!(one.get_stamp("".to_string()).timestamp(), 4);
    assert_eq!(one.get_stamp("c".to_string()), TimestampedFile::default());
}

#[test]
fn stamp_leaves_other_hashes_alone() {
    testing_env(get_context(vec![], false, 5));
    let mut ledger = ProofOfTimestamp::default();
    ledger.stamp_at("abc123".to_string(), 100);
    let before_stamped = ledger.get_stamp("abc123".to_string());
    let before_missing = ledger.get_stamp("abc124".to_string());
    ledger.stamp_at("abc12".to_string(), 3100);
    assert_eq!(ledger.get_stamp("abc123".to_string()), before_stamped);
    assert_eq!(ledger.get_stamp("abc124".to_string()), before_missing);
    assert_eq!(before_missing, TimestampedFile::default());
}

#[test]
fn stamp_at_time_zero_is_not_the_default_record() {
    testing_env(get_context(vec![], false, 5));
    let mut ledger = ProofOfTimestamp::default();
    ledger.stamp_at("abc123".to_string(), 0);
    let record = ledger.get_stamp("abc123".to_string());
    assert_eq!(record.timestamp(), 0);
    assert_eq!(record.commitment().len(), 32);
    assert_ne!(record, TimestampedFile::default());
}

#[test]
fn stamped_record_commits_to_hash_and_time() {
    testing_env(get_context(vec![], false, 5));
    let record = TimestampedFile::stamped("\u{e9}", 7);
    assert_eq!(record.timestamp(), 7);
    assert_eq!(record.commitment(), &E_ACUTE_AT_7[..]);
}

#[test]
fn commit_is_keccak256_of_the_preimage() {
    testing_env(get_context(vec![], false, 5));
    assert_eq!(commit("", 0), EMPTY_AT_0.to_vec());
    assert_eq!(commit("abc123", 100), ABC123_AT_100.to_vec());
    assert_eq!(commit("abc12", 3100), ABC123_AT_100.to_vec());
    assert_ne!(commit("abc123", 100), b"abc123100".to_vec());
}
