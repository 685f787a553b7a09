//! The link: its payer, its fee, its transactions.
use orbit_link::errors::{ErrorKind, Failure, SignerError};
use orbit_link::fees::FeeRefresh;
use orbit_link::session::{Action, Event, Pacing, SendMode, Session};
use orbit_link::transaction::{message_or_failure, signing_order};
use orbit_link::types::{
    AccountMeta, AddressLookupTableAccount, Blockhash, CommitmentConfig, CommitmentLevel,
    Instruction, Pubkey, Signature,
};
use orbit_link::OrbitLink;

const CONFIRMED: CommitmentConfig = CommitmentConfig { commitment: CommitmentLevel::Confirmed };

const PACING: Pacing = Pacing {
    max_timeout_tx_send_ms: 1_000,
    delay_ms_between_tx_send_retry: 10,
    default_status_fetch_delay_ms: 20,
};

fn key(n: u8) -> Pubkey {
    Pubkey([n; 32])
}

/// A signer is a number here; its key is that number, repeated.
fn key_of(signer: &u8) -> Pubkey {
    key(*signer)
}

fn link(payer: Option<u8>, payer_pubkey: Option<Pubkey>) -> OrbitLink<&'static str, u8> {
    OrbitLink::new("client", payer, None, CONFIRMED, payer_pubkey).unwrap()
}

fn invalid_input(message: &str) -> ErrorKind {
    ErrorKind::SignerError(SignerError::InvalidInput(message.to_string()))
}

fn call(program: u8, accounts: &[(u8, bool, bool)], data: &[u8]) -> Instruction {
    Instruction {
        program_id: key(program),
        accounts: accounts
            .iter()
            .map(|(n, is_signer, is_writable)| AccountMeta {
                pubkey: key(*n),
                is_signer: *is_signer,
                is_writable: *is_writable,
            })
            .collect(),
        data: data.to_vec(),
    }
}

fn table(n: u8, addresses: &[u8]) -> AddressLookupTableAccount {
    AddressLookupTableAccount {
        key: key(n),
        addresses: addresses.iter().map(|n| key(*n)).collect(),
    }
}

fn blockhash() -> Result<Blockhash, String> {
    Ok(Blockhash([9; 32]))
}

#[test]
fn someone_has_to_pay() {
    let outcome: Result<OrbitLink<(), u8>, ErrorKind> =
        OrbitLink::new((), None, None, CONFIRMED, None);
    assert_eq!(outcome.err(), Some(invalid_input("No payer nor payer_pubkey provided")));
}

#[test]
fn new_link_holds_what_it_is_given() {
    let link = link(Some(1), None);
    assert_eq!(link.client, "client");
    assert_eq!(link.commitment_config(), CONFIRMED);
    assert_eq!(link.get_recommended_micro_lamport_fee(), 10_000);
    assert_eq!(link.payer(), Ok(&1));
}

#[test]
fn signer_comes_before_given_key() {
    assert_eq!(link(Some(1), None).payer_pubkey(key_of), key(1));
    assert_eq!(link(Some(1), Some(key(2))).payer_pubkey(key_of), key(1));
    assert_eq!(link(None, Some(key(2))).payer_pubkey(key_of), key(2));
}

#[test]
fn key_alone_cannot_sign() {
    assert_eq!(link(None, Some(key(2))).payer(), Err(invalid_input("No payer provided")));
}

#[test]
fn refreshed_fee_is_kept() {
    let mut link = link(Some(1), None);
    link.refresh_fee_cache::<String, String>(Ok(20_000), Ok(100_000), 5);
    assert_eq!(link.get_recommended_micro_lamport_fee(), 95_000);
    assert_eq!(link.refresh_fee_cache_if_needed(65), FeeRefresh::NotNeeded);
    assert_eq!(link.refresh_fee_cache_if_needed(66), FeeRefresh::Needed);
}

#[test]
fn fee_that_cannot_be_fetched_counts_as_zero() {
    let mut link = link(Some(1), None);
    link.refresh_fee_cache(Err("down"), Ok::<u64, String>(20_000), 1);
    assert_eq!(link.get_recommended_micro_lamport_fee(), 19_000);
    link.refresh_fee_cache(Ok::<u64, String>(30_000), Err("down"), 2);
    assert_eq!(link.get_recommended_micro_lamport_fee(), 30_000);
    link.refresh_fee_cache::<&str, &str>(Err("down"), Err("down"), 3);
    assert_eq!(link.get_recommended_micro_lamport_fee(), 10_000);
}

#[test]
fn account_is_created_by_the_payer() {
    let instruction = link(Some(1), None)
        .create_account_ix::<String, _>(&key(7), 258, &key(8), Ok(1_000_000_000), key_of)
        .unwrap();
    let mut data: Vec<u8> = vec![0, 0, 0, 0];
    // 1 000 000 000 is 3B 9A CA 00, and 258 is 01 02, in hexadecimal.
    data.extend([0x00, 0xCA, 0x9A, 0x3B, 0, 0, 0, 0]);
    data.extend([2, 1, 0, 0, 0, 0, 0, 0]);
    data.extend([8; 32]);
    assert_eq!(instruction, call(0, &[(1, true, true), (7, true, true)], &data));
}

#[test]
fn account_is_created_for_a_payer_who_does_not_sign() {
    let instruction = link(None, Some(key(3)))
        .create_account_ix::<String, _>(&key(7), 0, &key(8), Ok(1), key_of)
        .unwrap();
    assert_eq!(instruction.accounts[0].pubkey, key(3));
}

#[test]
fn account_is_not_created_without_rent() {
    let outcome = link(Some(1), None).create_account_ix(&key(7), 1, &key(8), Err("down"), key_of);
    assert_eq!(outcome, Err("down"));
}

#[test]
fn transaction_is_compiled_for_the_payer() {
    let instructions = vec![call(5, &[(4, false, true), (6, false, false)], &[1, 2, 3])];
    let message = link(Some(1), None).create_tx(&instructions, blockhash(), key_of).unwrap();
    let keys: Vec<[u8; 32]> = message.account_keys.iter().map(|key| key.to_bytes()).collect();
    assert_eq!(keys, vec![[1; 32], [4; 32], [5; 32], [6; 32]]);
    assert_eq!(message.header.num_required_signatures, 1);
    assert_eq!(message.header.num_readonly_signed_accounts, 0);
    assert_eq!(message.header.num_readonly_unsigned_accounts, 2);
    assert_eq!(message.recent_blockhash.to_bytes(), [9; 32]);
    assert_eq!(message.instructions.len(), 1);
    assert_eq!(message.instructions[0].program_id_index, 2);
    assert_eq!(message.instructions[0].accounts, vec![1, 3]);
    assert_eq!(message.instructions[0].data, vec![1, 2, 3]);
    assert!(message.address_table_lookups.is_empty());
}

#[test]
fn lookup_tables_are_used() {
    let instructions = vec![call(5, &[(4, false, true), (6, false, false)], &[])];
    let tables = Some(vec![table(20, &[30, 4])]);
    let mut link: OrbitLink<(), u8> = OrbitLink::new((), Some(1), tables, CONFIRMED, None).unwrap();
    let message = link.create_tx(&instructions, blockhash(), key_of).unwrap();
    assert_eq!(message.address_table_lookups.len(), 1);
    assert_eq!(message.address_table_lookups[0].account_key.to_bytes(), [20; 32]);
    assert_eq!(message.address_table_lookups[0].writable_indexes, vec![1]);
    assert!(message.address_table_lookups[0].readonly_indexes.is_empty());
    link.add_lookup_table(table(21, &[6]));
    let message = link.create_tx(&instructions, blockhash(), key_of).unwrap();
    assert_eq!(message.address_table_lookups.len(), 2);
    assert_eq!(message.address_table_lookups[1].account_key.to_bytes(), [21; 32]);
    assert_eq!(message.address_table_lookups[1].readonly_indexes, vec![0]);
}

#[test]
fn added_table_serves_as_an_extra_one() {
    let instructions = vec![call(5, &[(4, false, true), (6, false, false)], &[7])];
    let extra = vec![table(21, &[6])];
    let mut link = link(Some(1), None);
    let plain = link.create_tx(&instructions, blockhash(), key_of);
    let none = link.create_tx_with_extra_lookup_tables(&instructions, &vec![], blockhash(), key_of);
    assert_eq!(plain, none);
    let with_extra =
        link.create_tx_with_extra_lookup_tables(&instructions, &extra, blockhash(), key_of);
    assert_ne!(plain, with_extra);
    link.add_lookup_table(extra[0].clone());
    assert_eq!(link.create_tx(&instructions, blockhash(), key_of), with_extra);
}

#[test]
fn transaction_needs_a_signer() {
    let link = link(None, Some(key(2)));
    let reason = Failure::Link(invalid_input("No payer provided"));
    let outcome = link.create_tx(&vec![], blockhash(), key_of);
    assert_eq!(outcome.err(), Some(reason));
    // The missing signer is found before the missing blockhash.
    let reason = Failure::Link(invalid_input("No payer provided"));
    let outcome = link.create_tx_with_extra_lookup_tables(
        &vec![],
        &vec![table(1, &[2])],
        Err("down".to_string()),
        key_of,
    );
    assert_eq!(outcome.err(), Some(reason));
}

#[test]
fn transaction_needs_a_blockhash() {
    let link = link(Some(1), None);
    let outcome = link.create_tx(&vec![], Err("down"), key_of);
    assert_eq!(outcome.err(), Some(Failure::Client("down")));
    let outcome =
        link.create_tx_with_extra_lookup_tables(&vec![], &vec![], Err("down"), key_of);
    assert_eq!(outcome.err(), Some(Failure::Client("down")));
}

#[test]
fn too_many_accounts_do_not_compile() {
    let accounts = (0..300u16)
        .map(|n| {
            let mut bytes = [1; 32];
            bytes[0] = (n / 256) as u8;
            bytes[1] = (n % 256) as u8;
            AccountMeta { pubkey: Pubkey(bytes), is_signer: false, is_writable: true }
        })
        .collect();
    let instructions = vec![Instruction { program_id: key(5), accounts, data: vec![] }];
    let outcome = link(Some(1), None).create_tx(&instructions, blockhash(), key_of);
    assert_eq!(
        outcome.err(),
        Some(Failure::Link(ErrorKind::CompileError(
            solana_message::CompileError::AccountIndexOverflow
        )))
    );
}

#[test]
fn compiled_message_is_handed_on() {
    let message = solana_message::v0::Message::default();
    assert_eq!(message_or_failure::<String>(Ok(message.clone())), Ok(message));
    assert_eq!(
        message_or_failure::<String>(Err(
            solana_message::CompileError::AddressTableLookupIndexOverflow
        )),
        Err(Failure::Link(ErrorKind::CompileError(
            solana_message::CompileError::AddressTableLookupIndexOverflow
        )))
    );
}

#[test]
fn payer_signs_first() {
    assert_eq!(signing_order(1, &[2, 3]), vec![1, 2, 3]);
    assert_eq!(signing_order("payer", &[]), vec!["payer"]);
}

#[test]
fn link_starts_sessions_at_its_commitment() {
    let link = link(Some(1), None);
    let (mut session, action): (Session<u32>, Action<String>) =
        link.send_and_confirm_transactions(2, 1, PACING);
    assert_eq!(action, Action::SendAll(SendMode::NodeRetries));
    let event: Event<u32, String> =
        Event::Sent(vec![Ok(Signature([1; 64])), Ok(Signature([2; 64]))]);
    assert_eq!(session.step(event), Action::Sleep(20_000_000));

    let (mut session, action): (Session<u32>, Action<String>) =
        link.send_and_confirm_transaction(0, PACING);
    assert_eq!(action, Action::SendAll(SendMode::NodeRetries));
    let event: Event<u32, String> = Event::Sent(vec![Ok(Signature([1; 64]))]);
    assert_eq!(session.step(event), Action::Finish);
}

#[test]
fn link_starts_retried_sessions() {
    let link = link(Some(1), None);
    let hashes = vec![Blockhash([4; 32]), Blockhash([5; 32])];
    let started =
        link.send_retry_and_confirm_transactions::<u32, String>(&hashes, Some(50), true, PACING);
    let (mut session, action) = started.unwrap();
    assert_eq!(action, Action::SendAll(SendMode::NoRetryNoPreflight));
    let event: Event<u32, String> =
        Event::Sent(vec![Ok(Signature([1; 64])), Ok(Signature([2; 64]))]);
    assert_eq!(session.step(event), Action::ReadClock);
    assert_eq!(
        session.step::<String>(Event::Elapsed(49)),
        Action::CheckBlockhash(Blockhash([4; 32]))
    );

    let started =
        link.send_retry_and_confirm_transactions::<u32, String>(&vec![], None, true, PACING);
    assert_eq!(started.err(), Some(ErrorKind::NoTransactions));

    let (mut session, action) = link.send_retry_and_confirm_transaction::<u32, String>(
        Blockhash([6; 32]),
        None,
        false,
        PACING,
    );
    assert_eq!(action, Action::SendAll(SendMode::NoRetry));
    let event: Event<u32, String> = Event::Sent(vec![Ok(Signature([1; 64]))]);
    assert_eq!(session.step(event), Action::ReadClock);
    assert_eq!(
        session.step::<String>(Event::Elapsed(0)),
        Action::CheckBlockhash(Blockhash([6; 32]))
    );
}
