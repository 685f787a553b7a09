//! Asking for accounts and reading them.
use orbit_link::accounts::AccountsQuery;
use orbit_link::async_client::ClientDiscriminator;
use orbit_link::errors::{ErrorKind, Failure};
use orbit_link::text::bytes_to_text;
use orbit_link::types::{CommitmentConfig, CommitmentLevel, Pubkey};
use orbit_link::OrbitLink;

fn link() -> OrbitLink<(), u8> {
    let level = CommitmentConfig { commitment: CommitmentLevel::Processed };
    OrbitLink::new((), Some(1), None, level, None).unwrap()
}

fn key(n: u8) -> Pubkey {
    Pubkey([n; 32])
}

/// Reads one byte that is not zero.
fn read(data: &[u8]) -> Result<u8, String> {
    match data.first() {
        Some(0) => Err("zero".to_string()),
        Some(byte) => Ok(*byte),
        None => Err("empty".to_string()),
    }
}

const DISCRIMINATOR: [u8; 8] = [1, 2, 3, 4, 5, 6, 7, 255];

fn with_discriminator(body: &[u8]) -> Vec<u8> {
    let mut data = DISCRIMINATOR.to_vec();
    data.extend_from_slice(body);
    data
}

#[test]
fn discriminators_become_bytes() {
    assert_eq!(ClientDiscriminator::Byte(7).to_vec(), vec![7]);
    assert_eq!(ClientDiscriminator::Bytes(DISCRIMINATOR).to_vec(), DISCRIMINATOR.to_vec());
}

#[test]
fn first_byte_asks_for_no_more_than_all_bytes() {
    let first = ClientDiscriminator::Byte(DISCRIMINATOR[0]).to_vec();
    let all = ClientDiscriminator::Bytes(DISCRIMINATOR).to_vec();
    assert_eq!(first.len(), 1);
    assert_eq!(all.len(), 8);
    assert!(all.starts_with(&first));
}

#[test]
fn account_is_read() {
    assert_eq!(link().get_anchor_account(Ok(vec![5, 6]), read), Ok(5));
    assert_eq!(link().get_anchor_account(Ok(vec![0]), read), Err("zero".to_string()));
    assert_eq!(
        link().get_anchor_account(Err("down".to_string()), read),
        Err("down".to_string())
    );
}

#[test]
fn relaxed_account_is_read_after_its_discriminator() {
    let account: Result<Vec<u8>, &str> = Ok(with_discriminator(&[9, 0, 0]));
    assert_eq!(link().get_anchor_account_relaxed(account, &DISCRIMINATOR, read), Ok(9));
}

#[test]
fn relaxed_account_has_to_match() {
    let account: Result<Vec<u8>, &str> = Ok(vec![0, 10, 100, 200, 250, 9, 99, 1, 42]);
    assert_eq!(
        link().get_anchor_account_relaxed(account, &DISCRIMINATOR, read),
        Err(Failure::Link(ErrorKind::DeserializationError(
            "Discriminator mismatch: expected [1, 2, 3, 4, 5, 6, 7, 255], \
             got [0, 10, 100, 200, 250, 9, 99, 1]"
                .to_string()
        )))
    );
}

#[test]
fn relaxed_account_reports_what_is_wrong() {
    let account: Result<Vec<u8>, &str> = Ok(DISCRIMINATOR.to_vec());
    assert_eq!(
        link().get_anchor_account_relaxed(account, &DISCRIMINATOR, read),
        Err(Failure::Link(ErrorKind::DeserializationError("empty".to_string())))
    );
    assert_eq!(
        link().get_anchor_account_relaxed(Err("down"), &DISCRIMINATOR, read),
        Err(Failure::Client("down"))
    );
}

#[test]
fn accounts_are_read_in_order() {
    let accounts = Ok(vec![Some(vec![5]), None, Some(vec![6])]);
    assert_eq!(
        link().get_anchor_accounts(accounts, read),
        Ok(vec![Some(5), None, Some(6)])
    );
}

#[test]
fn first_unreadable_account_is_reported() {
    let accounts = Ok(vec![None, Some(vec![5]), Some(vec![]), Some(vec![0])]);
    assert_eq!(link().get_anchor_accounts(accounts, read), Err("empty".to_string()));
    assert_eq!(
        link().get_anchor_accounts(Err("down".to_string()), read),
        Err("down".to_string())
    );
}

#[test]
fn program_accounts_are_asked_for_by_size_and_discriminator() {
    let query = link().all_anchor_accounts_query::<String>(&key(3), Ok(vec![0; 40]), DISCRIMINATOR);
    assert_eq!(
        query,
        Ok(AccountsQuery {
            program_id: key(3),
            size: 40,
            discriminator: ClientDiscriminator::Bytes(DISCRIMINATOR),
        })
    );
    let query = link().all_anchor_accounts_query(&key(3), Err("no form"), DISCRIMINATOR);
    assert_eq!(query, Err("no form"));
}

#[test]
fn program_accounts_are_read_in_order() {
    let accounts = Ok(vec![(key(1), vec![8]), (key(2), vec![7])]);
    assert_eq!(
        link().get_all_anchor_accounts(accounts, read),
        Ok(vec![(key(1), 8), (key(2), 7)])
    );
    let accounts = Ok(vec![(key(1), vec![8]), (key(2), vec![0]), (key(3), vec![])]);
    assert_eq!(link().get_all_anchor_accounts(accounts, read), Err("zero".to_string()));
    assert_eq!(
        link().get_all_anchor_accounts(Err("down".to_string()), read),
        Err("down".to_string())
    );
}

#[test]
fn zero_copy_accounts_are_asked_for_by_first_byte() {
    assert_eq!(
        link().all_zero_copy_accounts_query(&key(3), 100, &DISCRIMINATOR),
        AccountsQuery {
            program_id: key(3),
            size: 108,
            discriminator: ClientDiscriminator::Byte(1),
        }
    );
}

#[test]
fn zero_copy_accounts_are_read_after_their_discriminator() {
    let accounts: Result<Vec<(Pubkey, Vec<u8>)>, String> =
        Ok(vec![(key(1), with_discriminator(&[4, 5])), (key(2), with_discriminator(&[6]))]);
    let read = link().get_all_zero_copy_accounts(accounts, |data: &[u8]| data.to_vec());
    assert_eq!(read, Ok(vec![(key(1), vec![4, 5]), (key(2), vec![6])]));
    let read = link().get_all_zero_copy_accounts(Err("down"), |data: &[u8]| data.to_vec());
    assert_eq!(read, Err("down"));
}

#[test]
fn bytes_are_written_in_decimal() {
    assert_eq!(bytes_to_text(&[]), "[]");
    assert_eq!(bytes_to_text(&[7]), "[7]");
    assert_eq!(bytes_to_text(&[0, 10, 99, 100, 255]), "[0, 10, 99, 100, 255]");
    for byte in 0..=255u8 {
        assert_eq!(bytes_to_text(&[byte, byte]), format!("{:?}", [byte, byte]));
    }
}
