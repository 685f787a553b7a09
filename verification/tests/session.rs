//! Whole sessions, driven by hand.
use orbit_link::errors::ErrorKind;
use orbit_link::session::{
    collect_results, single_result, Action, Event, Pacing, Phase, SendMode, Session,
};
use orbit_link::status::{TransactionConfirmationStatus, TransactionStatus};
use orbit_link::types::{Blockhash, CommitmentConfig, CommitmentLevel, Signature};

type Happening = Event<u32, String>;
type Order = Action<String>;

const PACING: Pacing = Pacing {
    max_timeout_tx_send_ms: 30_000,
    delay_ms_between_tx_send_retry: 500,
    default_status_fetch_delay_ms: 1_000,
};

const CONFIRMED: CommitmentConfig = CommitmentConfig { commitment: CommitmentLevel::Confirmed };

fn sig(n: u8) -> Signature {
    Signature([n; 64])
}

fn hash(n: u8) -> Blockhash {
    Blockhash([n; 32])
}

fn sent(signatures: &[u8]) -> Happening {
    Event::Sent(signatures.iter().map(|n| Ok(sig(*n))).collect())
}

fn ms(n: u128) -> Happening {
    Event::Elapsed(n * 1_000_000)
}

fn seen(confirmation_status: TransactionConfirmationStatus) -> Option<TransactionStatus<u32>> {
    Some(TransactionStatus {
        confirmations: Some(0),
        err: None,
        confirmation_status: Some(confirmation_status),
    })
}

fn processed() -> Option<TransactionStatus<u32>> {
    seen(TransactionConfirmationStatus::Processed)
}

fn confirmed() -> Option<TransactionStatus<u32>> {
    seen(TransactionConfirmationStatus::Confirmed)
}

fn failed(error: u32) -> Option<TransactionStatus<u32>> {
    Some(TransactionStatus { confirmations: Some(0), err: Some(error), confirmation_status: None })
}

fn plain(count: usize, attempts: usize) -> Session<u32> {
    let (session, action): (Session<u32>, Order) =
        Session::send_and_confirm(count, CONFIRMED, attempts, PACING);
    assert_eq!(action, Action::SendAll(SendMode::NodeRetries));
    session
}

fn retried(count: usize, timeout_ns: Option<u128>) -> Session<u32> {
    let hashes: Vec<Blockhash> = (0..count).map(|i| hash(40 + i as u8)).collect();
    match Session::send_retry_and_confirm::<String>(&hashes, timeout_ns, false, CONFIRMED, PACING) {
        Ok((session, action)) => {
            assert_eq!(action, Action::SendAll(SendMode::NoRetry));
            session
        }
        Err(_) => panic!("there are transactions"),
    }
}

#[test]
fn plain_session_confirms_at_the_level_asked_for() {
    let mut session = plain(2, 3);
    assert_eq!(session.phase(), Phase::Sending);
    assert_eq!(session.step(sent(&[1, 2])), Action::Sleep(1_000_000_000));
    assert_eq!(
        session.step::<String>(Event::Slept),
        Action::FetchStatuses(vec![sig(1), sig(2)])
    );
    let statuses: Happening = Event::Statuses(Ok(vec![processed(), confirmed()]));
    assert_eq!(session.step(statuses), Action::Sleep(1_000_000_000));
    assert_eq!(session.step::<String>(Event::Slept), Action::FetchStatuses(vec![sig(1)]));
    let statuses: Happening = Event::Statuses(Ok(vec![failed(5)]));
    assert_eq!(session.step(statuses), Action::Finish);
    assert_eq!(session.phase(), Phase::Done);
    assert_eq!(
        session.into_results(),
        vec![(sig(1), Some(Err(5))), (sig(2), Some(Ok(())))]
    );
}

#[test]
fn plain_session_stops_when_attempts_are_used_up() {
    let mut session = plain(1, 2);
    session.step(sent(&[1]));
    session.step::<String>(Event::Slept);
    let statuses: Happening = Event::Statuses(Ok(vec![None]));
    assert_eq!(session.step(statuses), Action::Sleep(1_000_000_000));
    session.step::<String>(Event::Slept);
    let statuses: Happening = Event::Statuses(Ok(vec![processed()]));
    assert_eq!(session.step(statuses), Action::Finish);
    assert_eq!(session.into_results(), vec![(sig(1), None)]);
}

/// Confirms one sent transaction with the replies given, and says how many of them
/// were asked for and what came of it.
fn confirm(attempts: usize, replies: &[u8]) -> (usize, Option<Result<(), u32>>) {
    let mut session = plain(1, attempts);
    let mut action: Order = session.step(sent(&[1]));
    let mut asked = 0;
    while action != Action::Finish {
        let event: Happening = match action {
            Action::Sleep(_) => Event::Slept,
            _ => {
                asked += 1;
                Event::Statuses(Ok(vec![match replies[asked - 1] {
                    0 => None,
                    1 => processed(),
                    _ => confirmed(),
                }]))
            }
        };
        action = session.step(event);
    }
    (asked, single_result(session.into_results()).1)
}

#[test]
fn every_attempt_is_made_unless_all_is_known() {
    assert_eq!(confirm(3, &[0, 1, 0, 2]), (3, None));
    assert_eq!(confirm(4, &[0, 1, 0, 2]), (4, Some(Ok(()))));
    assert_eq!(confirm(4, &[0, 2, 0, 0]), (2, Some(Ok(()))));
}

#[test]
fn attempts_add_up() {
    // Two attempts and then three more end as five do.
    let replies = [0, 1, 1, 2, 0];
    assert_eq!(confirm(2, &replies[..2]), (2, None));
    assert_eq!(confirm(3, &replies[2..]), (2, Some(Ok(()))));
    assert_eq!(confirm(5, &replies), (4, Some(Ok(()))));
}

#[test]
fn plain_session_without_attempts_only_sends() {
    let mut session = plain(1, 0);
    assert_eq!(session.step(sent(&[1])), Action::Finish);
    assert_eq!(session.into_results(), vec![(sig(1), None)]);
}

#[test]
fn plain_session_of_no_transactions_is_done_at_once() {
    let mut session = plain(0, 4);
    assert_eq!(session.step(sent(&[])), Action::Finish);
    assert!(session.into_results().is_empty());
}

#[test]
fn first_sending_error_fails_the_session() {
    let mut session = plain(3, 3);
    let event: Happening = Event::Sent(vec![
        Ok(sig(1)),
        Err("first".to_string()),
        Err("second".to_string()),
    ]);
    assert_eq!(session.step(event), Action::Fail("first".to_string()));
    assert_eq!(session.phase(), Phase::Failed);
}

#[test]
fn status_error_fails_a_confirming_session() {
    let mut session = plain(1, 3);
    session.step(sent(&[1]));
    session.step::<String>(Event::Slept);
    let statuses: Happening = Event::Statuses(Err("down".to_string()));
    assert_eq!(session.step(statuses), Action::Fail("down".to_string()));
    assert_eq!(session.phase(), Phase::Failed);
}

#[test]
fn empty_group_cannot_be_retried() {
    let outcome =
        Session::<u32>::send_retry_and_confirm::<String>(&Vec::new(), None, true, CONFIRMED, PACING);
    assert!(matches!(outcome, Err(ErrorKind::NoTransactions)));
}

#[test]
fn preflights_can_be_skipped() {
    let (_, action): (Session<u32>, Order) =
        Session::retry_and_confirm(2, hash(1), None, true, CONFIRMED, PACING);
    assert_eq!(action, Action::SendAll(SendMode::NoRetryNoPreflight));
}

#[test]
fn skipped_preflights_stay_skipped() {
    let (mut session, action): (Session<u32>, Order) =
        Session::retry_and_confirm(1, hash(1), None, true, CONFIRMED, PACING);
    assert_eq!(action, Action::SendAll(SendMode::NoRetryNoPreflight));
    session.step(sent(&[1]));
    for round in 1..4 {
        session.step(ms(round));
        session.step::<String>(Event::BlockhashValid(Ok(true)));
        let statuses: Happening = Event::Statuses(Ok(vec![None]));
        assert_eq!(
            session.step(statuses),
            Action::Resend { mode: SendMode::NoRetryNoPreflight, positions: vec![0] }
        );
        session.step::<String>(Event::Resent);
        session.step(ms(round));
        assert_eq!(session.step::<String>(Event::Slept), Action::ReadClock);
    }
}

#[test]
fn settled_transaction_is_not_sent_again() {
    let mut session = retried(2, None);
    session.step(sent(&[1, 2]));
    for round in 1..4 {
        session.step(ms(round));
        session.step::<String>(Event::BlockhashValid(Ok(true)));
        let statuses: Happening = Event::Statuses(Ok(if round == 1 {
            vec![failed(3), None]
        } else {
            vec![None]
        }));
        assert_eq!(
            session.step(statuses),
            Action::Resend { mode: SendMode::NoRetryNoPreflight, positions: vec![1] }
        );
        session.step::<String>(Event::Resent);
        session.step(ms(round));
        session.step::<String>(Event::Slept);
    }
}

#[test]
fn retried_session_runs_through() {
    let mut session = retried(3, Some(10_000_000_000));
    assert_eq!(session.step(sent(&[1, 2, 3])), Action::ReadClock);
    // The first transaction's blockhash stands for all.
    assert_eq!(session.step(ms(20)), Action::CheckBlockhash(hash(40)));
    assert_eq!(
        session.step::<String>(Event::BlockhashValid(Ok(true))),
        Action::FetchStatuses(vec![sig(1), sig(2), sig(3)])
    );
    // To be processed is not enough where confirmation is asked for.
    let statuses: Happening = Event::Statuses(Ok(vec![processed(), confirmed(), None]));
    assert_eq!(
        session.step(statuses),
        Action::Resend { mode: SendMode::NoRetryNoPreflight, positions: vec![0, 2] }
    );
    assert_eq!(session.step::<String>(Event::Resent), Action::ReadClock);
    assert_eq!(session.step(ms(50)), Action::Sleep(500_000_000));
    assert_eq!(session.step::<String>(Event::Slept), Action::ReadClock);
    assert_eq!(session.step(ms(600)), Action::CheckBlockhash(hash(40)));
    assert_eq!(
        session.step::<String>(Event::BlockhashValid(Ok(true))),
        Action::FetchStatuses(vec![sig(1), sig(3)])
    );
    let statuses: Happening = Event::Statuses(Ok(vec![failed(4), confirmed()]));
    assert_eq!(session.step(statuses), Action::ReadClock);
    assert_eq!(session.phase(), Phase::DeadlineClock);
    // 9.25 seconds are left.
    assert_eq!(session.step(ms(750)), Action::CountAttempts { timeout_ms: 9_250 });
    assert_eq!(session.step::<String>(Event::Attempts(2)), Action::Sleep(1_000_000_000));
    // All results are fetched anew.
    assert_eq!(
        session.step::<String>(Event::Slept),
        Action::FetchStatuses(vec![sig(1), sig(2), sig(3)])
    );
    let statuses: Happening = Event::Statuses(Ok(vec![failed(4), processed(), confirmed()]));
    assert_eq!(session.step(statuses), Action::ReadClock);
    assert_eq!(session.step(ms(1_800)), Action::Sleep(1_000_000_000));
    assert_eq!(session.step::<String>(Event::Slept), Action::FetchStatuses(vec![sig(2)]));
    let statuses: Happening = Event::Statuses(Ok(vec![confirmed()]));
    assert_eq!(session.step(statuses), Action::Finish);
    assert_eq!(
        session.into_results(),
        vec![
            (sig(1), Some(Err(4))),
            (sig(2), Some(Ok(()))),
            (sig(3), Some(Ok(()))),
        ]
    );
}

#[test]
fn processed_transaction_is_resent_until_finalized() {
    let level = CommitmentConfig { commitment: CommitmentLevel::Finalized };
    let (mut session, _): (Session<u32>, Order) =
        Session::retry_and_confirm(1, hash(1), None, false, level, PACING);
    session.step(sent(&[1]));
    for (round, status) in [processed(), confirmed(), None].into_iter().enumerate() {
        session.step(ms(round as u128));
        session.step::<String>(Event::BlockhashValid(Ok(true)));
        let statuses: Happening = Event::Statuses(Ok(vec![status]));
        assert_eq!(
            session.step(statuses),
            Action::Resend { mode: SendMode::NoRetryNoPreflight, positions: vec![0] }
        );
        session.step::<String>(Event::Resent);
        session.step(ms(round as u128));
        session.step::<String>(Event::Slept);
    }
    session.step(ms(10));
    session.step::<String>(Event::BlockhashValid(Ok(true)));
    let rooted = TransactionStatus { confirmations: None, err: None, confirmation_status: None };
    let statuses: Happening = Event::Statuses(Ok(vec![Some(rooted)]));
    assert_eq!(session.step(statuses), Action::ReadClock);
    assert_eq!(session.phase(), Phase::DeadlineClock);
}

#[test]
fn pauses_fit_in_the_timeout() {
    // The clock shows the pauses and nothing else, and no transaction is ever seen.
    let timeout_ns: u128 = 2_300_000_000;
    let mut session = retried(1, Some(timeout_ns));
    let mut action: Order = session.step(sent(&[1]));
    let mut slept: u128 = 0;
    let mut pauses: Vec<u128> = Vec::new();
    loop {
        let event: Happening = match action {
            Action::ReadClock => Event::Elapsed(slept),
            Action::CheckBlockhash(_) => Event::BlockhashValid(Ok(slept < 600_000_000)),
            Action::FetchStatuses(_) => Event::Statuses(Ok(vec![None])),
            Action::Resend { .. } => Event::Resent,
            Action::Sleep(pause_ns) => {
                slept += pause_ns;
                pauses.push(pause_ns);
                Event::Slept
            }
            Action::CountAttempts { .. } => Event::Attempts(100),
            Action::Finish => break,
            Action::SendAll(_) | Action::Fail(_) => panic!("sent once, without failure"),
        };
        action = session.step(event);
    }
    assert_eq!(pauses, vec![500_000_000, 500_000_000, 1_000_000_000, 300_000_000]);
    assert_eq!(slept, timeout_ns);
    assert_eq!(session.into_results(), vec![(sig(1), None)]);
}

#[test]
fn pause_between_rounds_is_cut_to_the_time_left() {
    let mut session = retried(1, Some(700_000_000));
    session.step(sent(&[1]));
    session.step(ms(300));
    session.step::<String>(Event::BlockhashValid(Ok(true)));
    let statuses: Happening = Event::Statuses(Ok(vec![None]));
    session.step(statuses);
    assert_eq!(session.step::<String>(Event::Resent), Action::ReadClock);
    assert_eq!(session.step(ms(400)), Action::Sleep(300_000_000));
    session.step::<String>(Event::Slept);
    assert_eq!(session.step(ms(700)), Action::ReadClock);
    assert_eq!(session.phase(), Phase::DeadlineClock);
}

#[test]
fn slow_round_is_not_followed_by_a_pause() {
    let mut session = retried(1, Some(700_000_000));
    session.step(sent(&[1]));
    session.step(ms(300));
    session.step::<String>(Event::BlockhashValid(Ok(true)));
    let statuses: Happening = Event::Statuses(Ok(vec![None]));
    session.step(statuses);
    session.step::<String>(Event::Resent);
    assert_eq!(session.step(ms(800)), Action::ReadClock);
    assert_eq!(session.phase(), Phase::DeadlineClock);
}

#[test]
fn confirming_stops_when_the_time_is_up() {
    let mut session = retried(1, Some(3_000_000_000));
    session.step(sent(&[1]));
    session.step(ms(1));
    session.step::<String>(Event::BlockhashValid(Ok(false)));
    assert_eq!(session.step(ms(1_500)), Action::CountAttempts { timeout_ms: 1_500 });
    assert_eq!(session.step::<String>(Event::Attempts(9)), Action::Sleep(1_000_000_000));
    session.step::<String>(Event::Slept);
    let statuses: Happening = Event::Statuses(Ok(vec![processed()]));
    assert_eq!(session.step(statuses), Action::ReadClock);
    assert_eq!(session.step(ms(3_000)), Action::Finish);
    assert_eq!(session.into_results(), vec![(sig(1), None)]);
}

#[test]
fn default_timeout_holds_when_none_is_given() {
    let mut session = retried(1, None);
    session.step(sent(&[1]));
    assert_eq!(session.step(ms(29_999)), Action::CheckBlockhash(hash(40)));
    let mut session = retried(1, None);
    session.step(sent(&[1]));
    assert_eq!(session.step(ms(30_000)), Action::ReadClock);
    assert_eq!(session.phase(), Phase::DeadlineClock);
}

#[test]
fn invalid_blockhash_ends_the_retry_loop() {
    let mut session = retried(1, Some(1_000_000_000));
    session.step(sent(&[1]));
    session.step(ms(1));
    assert_eq!(session.step::<String>(Event::BlockhashValid(Ok(false))), Action::ReadClock);
    assert_eq!(session.phase(), Phase::DeadlineClock);
    assert_eq!(session.step(ms(2)), Action::CountAttempts { timeout_ms: 998 });
}

#[test]
fn blockhash_error_fails_the_session() {
    let mut session = retried(1, None);
    session.step(sent(&[1]));
    session.step(ms(1));
    assert_eq!(
        session.step(Event::BlockhashValid(Err("lost".to_string()))),
        Action::Fail("lost".to_string())
    );
    assert_eq!(session.phase(), Phase::Failed);
}

#[test]
fn status_error_fails_the_retry_loop() {
    let mut session = retried(1, None);
    session.step(sent(&[1]));
    session.step(ms(1));
    session.step::<String>(Event::BlockhashValid(Ok(true)));
    let statuses: Happening = Event::Statuses(Err("down".to_string()));
    assert_eq!(session.step(statuses), Action::Fail("down".to_string()));
}

#[test]
fn late_group_is_still_looked_up_once() {
    let mut session = retried(1, Some(5));
    session.step(sent(&[1]));
    assert_eq!(session.step::<String>(Event::Elapsed(5)), Action::ReadClock);
    assert_eq!(
        session.step::<String>(Event::Elapsed(7)),
        Action::CountAttempts { timeout_ms: 0 }
    );
    // No time is left for a pause.
    assert_eq!(
        session.step::<String>(Event::Attempts(0)),
        Action::FetchStatuses(vec![sig(1)])
    );
    let statuses: Happening = Event::Statuses(Ok(vec![None]));
    assert_eq!(session.step(statuses), Action::Finish);
    assert_eq!(session.into_results(), vec![(sig(1), None)]);
}

#[test]
fn without_time_there_is_no_pause() {
    let mut session = retried(2, Some(0));
    assert_eq!(session.step(sent(&[1, 2])), Action::ReadClock);
    assert_eq!(session.step(ms(0)), Action::ReadClock);
    assert_eq!(session.step(ms(0)), Action::CountAttempts { timeout_ms: 0 });
    assert_eq!(
        session.step::<String>(Event::Attempts(3)),
        Action::FetchStatuses(vec![sig(1), sig(2)])
    );
    let statuses: Happening = Event::Statuses(Ok(vec![confirmed(), None]));
    assert_eq!(session.step(statuses), Action::ReadClock);
    assert_eq!(session.step(ms(0)), Action::Finish);
    assert_eq!(session.into_results(), vec![(sig(1), Some(Ok(()))), (sig(2), None)]);
}

#[test]
fn time_left_is_counted_in_whole_milliseconds() {
    let mut session = retried(1, Some(3_999_999));
    session.step(sent(&[1]));
    session.step::<String>(Event::Elapsed(1));
    session.step::<String>(Event::BlockhashValid(Ok(false)));
    assert_eq!(
        session.step::<String>(Event::Elapsed(1_000_000)),
        Action::CountAttempts { timeout_ms: 2 }
    );
}

#[test]
fn single_result_is_the_first() {
    let result = single_result(vec![(sig(3), Some(Err(1u32))), (sig(4), None)]);
    assert_eq!(result, (sig(3), Some(Err(1))));
}

#[test]
fn collecting_stops_at_the_first_error() {
    let good: Vec<Result<u8, &str>> = vec![Ok(1), Ok(2)];
    assert_eq!(collect_results(good), Ok(vec![1, 2]));
    let bad: Vec<Result<u8, &str>> = vec![Ok(1), Err("a"), Ok(2), Err("b")];
    assert_eq!(collect_results(bad), Err("a"));
    let none: Vec<Result<u8, &str>> = Vec::new();
    assert_eq!(collect_results(none), Ok(Vec::new()));
}
