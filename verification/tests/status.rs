//! What a status says of a transaction, and what a list of them settles.
use orbit_link::status::{
    get_remaining_signatures_to_confirm, record_statuses, Entry, TransactionConfirmationStatus,
    TransactionStatus,
};
use orbit_link::types::{CommitmentConfig, CommitmentLevel, Signature};

type Status = TransactionStatus<u32>;

fn at(commitment: CommitmentLevel) -> CommitmentConfig {
    CommitmentConfig { commitment }
}

fn sig(n: u8) -> Signature {
    Signature([n; 64])
}

fn status(
    confirmations: Option<usize>,
    err: Option<u32>,
    confirmation_status: Option<TransactionConfirmationStatus>,
) -> Status {
    TransactionStatus { confirmations, err, confirmation_status }
}

#[test]
fn processed_level_takes_any_status() {
    let level = at(CommitmentLevel::Processed);
    assert!(status(Some(0), None, None).satisfies_commitment(level));
    assert!(status(None, None, None).satisfies_commitment(level));
}

#[test]
fn confirmed_level_goes_by_reported_status() {
    let level = at(CommitmentLevel::Confirmed);
    let processed = Some(TransactionConfirmationStatus::Processed);
    let confirmed = Some(TransactionConfirmationStatus::Confirmed);
    let finalized = Some(TransactionConfirmationStatus::Finalized);
    assert!(!status(Some(20), None, processed).satisfies_commitment(level));
    assert!(!status(None, None, processed).satisfies_commitment(level));
    assert!(status(Some(0), None, confirmed).satisfies_commitment(level));
    assert!(status(Some(0), None, finalized).satisfies_commitment(level));
}

#[test]
fn confirmed_level_counts_confirmations_without_status() {
    let level = at(CommitmentLevel::Confirmed);
    assert!(!status(Some(0), None, None).satisfies_commitment(level));
    assert!(!status(Some(1), None, None).satisfies_commitment(level));
    assert!(status(Some(2), None, None).satisfies_commitment(level));
    assert!(status(None, None, None).satisfies_commitment(level));
}

#[test]
fn finalized_level_needs_a_rooted_block() {
    let level = at(CommitmentLevel::Finalized);
    let finalized = Some(TransactionConfirmationStatus::Finalized);
    assert!(!status(Some(31), None, finalized).satisfies_commitment(level));
    assert!(status(None, None, None).satisfies_commitment(level));
}

#[test]
fn error_is_a_verdict_at_every_level() {
    for level in [CommitmentLevel::Processed, CommitmentLevel::Confirmed, CommitmentLevel::Finalized] {
        assert_eq!(status(Some(0), Some(7), None).into_verdict(at(level)), Some(Err(7)));
    }
}

#[test]
fn success_needs_the_level() {
    let confirmed = Some(TransactionConfirmationStatus::Confirmed);
    assert_eq!(
        status(Some(1), None, confirmed).into_verdict(at(CommitmentLevel::Confirmed)),
        Some(Ok(()))
    );
    assert_eq!(status(Some(1), None, confirmed).into_verdict(at(CommitmentLevel::Finalized)), None);
}

#[test]
fn remaining_signatures_keep_their_order() {
    let entries: Vec<Entry<u32>> = vec![
        (sig(1), None),
        (sig(2), Some(Ok(()))),
        (sig(3), None),
        (sig(4), Some(Err(9))),
        (sig(5), None),
    ];
    let (signatures, positions) = get_remaining_signatures_to_confirm(&entries);
    assert_eq!(signatures, vec![sig(1), sig(3), sig(5)]);
    assert_eq!(positions, vec![0, 2, 4]);
}

#[test]
fn nothing_remains_of_an_empty_group() {
    let entries: Vec<Entry<u32>> = Vec::new();
    let (signatures, positions) = get_remaining_signatures_to_confirm(&entries);
    assert!(signatures.is_empty());
    assert!(positions.is_empty());
}

#[test]
fn statuses_go_to_the_open_entries_in_order() {
    let mut entries: Vec<Entry<u32>> = vec![
        (sig(1), Some(Err(1))),
        (sig(2), None),
        (sig(3), None),
        (sig(4), Some(Ok(()))),
        (sig(5), None),
        (sig(6), None),
    ];
    let statuses = vec![
        Some(status(None, None, None)),
        None,
        Some(status(Some(0), Some(8), None)),
        Some(status(Some(0), None, None)),
    ];
    record_statuses(&mut entries, statuses, at(CommitmentLevel::Confirmed));
    assert_eq!(
        entries,
        vec![
            (sig(1), Some(Err(1))),
            (sig(2), Some(Ok(()))),
            (sig(3), None),
            (sig(4), Some(Ok(()))),
            (sig(5), Some(Err(8))),
            (sig(6), None),
        ]
    );
}

#[test]
fn missing_and_surplus_statuses_change_nothing() {
    let mut entries: Vec<Entry<u32>> = vec![(sig(1), None), (sig(2), None)];
    record_statuses(
        &mut entries,
        vec![Some(status(None, None, None))],
        at(CommitmentLevel::Finalized),
    );
    assert_eq!(entries, vec![(sig(1), Some(Ok(()))), (sig(2), None)]);
    record_statuses(
        &mut entries,
        vec![
            Some(status(None, Some(3), None)),
            Some(status(None, Some(4), None)),
        ],
        at(CommitmentLevel::Finalized),
    );
    assert_eq!(entries, vec![(sig(1), Some(Ok(()))), (sig(2), Some(Err(3)))]);
}
