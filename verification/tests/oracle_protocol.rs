use miden_oracle::account::{OracleAccountState, WriteError};
use miden_oracle::protocol::{
    ForeignReadEvidence, MerkleStep, ReadError, build_evidence, confirm_read_value,
    evidence_root, foreign_read, words_commitment,
};
use miden_oracle::record::{OracleData, data_to_word};
use miden_oracle::word::Word;
use miden_oracle::write::write_records;

const ORACLE_ID: u64 = 10376293541461622847;

fn w(e0: u64, e1: u64, e2: u64, e3: u64) -> Word {
    Word { e0, e1, e2, e3 }
}

fn oracle_key() -> Word {
    w(11, 22, 33, 44)
}

fn fresh_oracle() -> OracleAccountState {
    OracleAccountState::new(
        ORACLE_ID,
        oracle_key(),
        w(100, 0, 0, 0),
        w(200, 0, 0, 0),
        w(300, 0, 0, 0),
    )
}

fn mock_records() -> Vec<OracleData> {
    vec![
        OracleData {
            asset_pair: "BTC/USD".to_string(),
            price: 50000,
            decimals: 2,
            publisher_id: 1,
        },
        OracleData {
            asset_pair: "ETH/USD".to_string(),
            price: 10000,
            decimals: 2,
            publisher_id: 1,
        },
        OracleData {
            asset_pair: "SOL/USD".to_string(),
            price: 2000,
            decimals: 2,
            publisher_id: 1,
        },
        OracleData {
            asset_pair: "POL/USD".to_string(),
            price: 50,
            decimals: 2,
            publisher_id: 1,
        },
    ]
}

#[test]
fn oracle_account_starts_zeroed() {
    let oracle = fresh_oracle();
    assert_eq!(oracle.nonce, 1);
    assert_eq!(oracle.read_slot(0), Some(oracle_key()));
    for slot in 1..5usize {
        assert_eq!(oracle.read_slot(slot), Some(w(0, 0, 0, 0)));
    }
    assert_eq!(oracle.read_slot(5), None);
}

#[test]
fn write_then_read_back() {
    let mut oracle = fresh_oracle();
    let records = mock_records();
    let (_script, delta) = write_records(&mut oracle, &records, oracle_key()).unwrap();
    assert_eq!(oracle.nonce, 2);
    for (slot, record) in records.iter().enumerate() {
        assert_eq!(
            oracle.read_slot(slot + 1),
            Some(data_to_word(record)),
            "slot contents must equal the packed record, in order"
        );
    }

    // A verifier holding the pre-write state catches up through the delta.
    let mut replica = fresh_oracle();
    replica.apply_delta(&delta);
    assert_eq!(replica, oracle);
}

#[test]
fn write_with_wrong_key_changes_nothing() {
    let mut oracle = fresh_oracle();
    let before = oracle.clone();
    let result = write_records(&mut oracle, &mock_records(), w(99, 99, 99, 99));
    assert_eq!(result.unwrap_err(), WriteError::AuthenticationFailed);
    assert_eq!(oracle, before);
    assert_eq!(oracle.nonce, 1);
}

fn path_one_step() -> Vec<MerkleStep> {
    vec![MerkleStep { sibling: w(5, 6, 7, 8), node_is_right: false }]
}

fn written_oracle() -> OracleAccountState {
    let mut oracle = fresh_oracle();
    write_records(&mut oracle, &mock_records(), oracle_key()).unwrap();
    oracle
}

#[test]
fn foreign_read_fresh_evidence_returns_written_words() {
    let oracle = written_oracle();
    let evidence = build_evidence(&oracle, w(0, 0, 0, 0), path_one_step());
    let ledger_root = evidence_root(&evidence);
    let read_proc_root = oracle.procedures[2];
    for (slot, record) in mock_records().iter().enumerate() {
        let got = foreign_read(&evidence, ledger_root, read_proc_root, slot + 1).unwrap();
        assert_eq!(got, data_to_word(record));
        assert!(confirm_read_value(got, data_to_word(record)).is_ok());
    }
}

#[test]
fn foreign_read_stale_evidence_fails_consistency() {
    let mut oracle = written_oracle();
    let stale_evidence = build_evidence(&oracle, w(0, 0, 0, 0), path_one_step());

    // A later write lands; the ledger root now reflects it.
    let mut updated = mock_records();
    updated[0].price = 60000;
    write_records(&mut oracle, &updated, oracle_key()).unwrap();
    let fresh_evidence = build_evidence(&oracle, w(0, 0, 0, 0), path_one_step());
    let new_root = evidence_root(&fresh_evidence);

    let read_proc_root = oracle.procedures[2];
    assert_eq!(
        foreign_read(&stale_evidence, new_root, read_proc_root, 1),
        Err(ReadError::CommitmentMismatch),
        "stale evidence must fail, never silently return the old value"
    );
}

#[test]
fn foreign_read_rejects_tampered_slot() {
    let oracle = written_oracle();
    let evidence = build_evidence(&oracle, w(0, 0, 0, 0), path_one_step());
    let ledger_root = evidence_root(&evidence);
    let mut tampered = evidence.clone();
    tampered.storage[1] = w(123, 123, 123, 123);
    assert_eq!(
        foreign_read(&tampered, ledger_root, oracle.procedures[2], 1),
        Err(ReadError::CommitmentMismatch)
    );
}

#[test]
fn foreign_read_rejects_unknown_procedure() {
    let oracle = written_oracle();
    let evidence = build_evidence(&oracle, w(0, 0, 0, 0), path_one_step());
    let ledger_root = evidence_root(&evidence);
    assert_eq!(
        foreign_read(&evidence, ledger_root, w(999, 999, 999, 999), 1),
        Err(ReadError::ProcedureNotFound)
    );
}

#[test]
fn confirm_read_value_flags_mismatch() {
    assert_eq!(
        confirm_read_value(w(1, 2, 3, 4), w(1, 2, 3, 5)),
        Err(ReadError::UnexpectedValue)
    );
    assert!(confirm_read_value(w(1, 2, 3, 4), w(1, 2, 3, 4)).is_ok());
}

#[test]
fn commitments_depend_on_contents() {
    let a = words_commitment(&vec![w(1, 2, 3, 4)]);
    let b = words_commitment(&vec![w(1, 2, 3, 5)]);
    assert_ne!(a, b);
    // The digest is not the input handed back.
    assert_ne!(a, w(1, 2, 3, 4));
}

#[test]
fn merkle_path_changes_root() {
    let oracle = written_oracle();
    let no_path = build_evidence(&oracle, w(0, 0, 0, 0), vec![]);
    let with_path = build_evidence(&oracle, w(0, 0, 0, 0), path_one_step());
    let leaf_root = evidence_root(&no_path);
    let merged_root = evidence_root(&with_path);
    assert_ne!(leaf_root, merged_root);

    // Each bundle verifies only against its own root.
    let read_proc_root = oracle.procedures[2];
    assert!(foreign_read(&no_path, leaf_root, read_proc_root, 1).is_ok());
    assert_eq!(
        foreign_read(&with_path, leaf_root, read_proc_root, 1),
        Err(ReadError::CommitmentMismatch)
    );
    assert!(foreign_read(&with_path, merged_root, read_proc_root, 1).is_ok());
}

// Evidence is a plain bundle: cloning it for the tamper test must preserve
// every field.
#[test]
fn evidence_fields_mirror_account() {
    let oracle = written_oracle();
    let evidence: ForeignReadEvidence = build_evidence(&oracle, w(9, 9, 9, 9), path_one_step());
    assert_eq!(evidence.account_id, ORACLE_ID);
    assert_eq!(evidence.nonce, 2);
    assert_eq!(evidence.vault_root, w(9, 9, 9, 9));
    assert_eq!(evidence.storage, oracle.storage);
    assert_eq!(evidence.procedures, oracle.procedures);
}
