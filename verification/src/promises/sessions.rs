//! What a session does with each event.
use vstd::prelude::*;

use crate::errors::ErrorKind;
use crate::guarantees::{
    collected_is_exact, confirmed_by, follows, open_positions_are_exact, results_are_the_reported_ones, run,
    status_for,
};
use crate::promises::statuses::{open_entries_are_exact, without_result};
use crate::session::{
    collect_results, single_result, Action, Event, Pacing, Phase, RetryPlan, SendMode, Session,
    SessionState,
};
use crate::status::{
    open_positions, rank, Entry, TransactionConfirmationStatus, TransactionStatus,
};
use crate::types::{Blockhash, CommitmentConfig, CommitmentLevel, Signature};

verus! {

/// A session that the nodes retry starts by sending everything that way, confirms at
/// the commitment that it was given, and has the attempts that it was given.
pub proof fn plain_start_is_exact<E, C>(
    count: usize,
    level: CommitmentConfig,
    nb_attempts: usize,
    pacing: Pacing,
    started: (Session<E>, Action<C>),
)
    requires
        call_ensures(
            Session::<E>::send_and_confirm::<C>,
            (count, level, nb_attempts, pacing),
            started,
        ),
    ensures
        started.1 == Action::<C>::SendAll(SendMode::NodeRetries),
        started.0@.phase == Phase::Sending,
        started.0@.plan is None,
        started.0@.level == level,
        started.0@.level.commitment == level.commitment,
        started.0@.count == count,
        started.0@.attempts_left == nb_attempts,
        started.0@.entries.len() == 0,
        started.0@.pacing == pacing,
{
}

/// A retried session starts by sending everything once, without simulation exactly if
/// preflights are skipped; it confirms at the commitment that it was given, within
/// the timeout that it was given or else the default one.
pub proof fn retried_start_is_exact<E, C>(
    count: usize,
    blockhash: Blockhash,
    timeout_ns: Option<u128>,
    skip_all_preflights: bool,
    level: CommitmentConfig,
    pacing: Pacing,
    started: (Session<E>, Action<C>),
)
    requires
        call_ensures(
            Session::<E>::retry_and_confirm::<C>,
            (count, blockhash, timeout_ns, skip_all_preflights, level, pacing),
            started,
        ),
    ensures
        skip_all_preflights ==> started.1 == Action::<C>::SendAll(SendMode::NoRetryNoPreflight),
        !skip_all_preflights ==> started.1 == Action::<C>::SendAll(SendMode::NoRetry),
        started.0@.phase == Phase::Sending,
        started.0@.plan is Some,
        started.0@.plan->0.blockhash == blockhash,
        timeout_ns matches Some(timeout) ==> started.0@.plan->0.timeout_ns == timeout,
        timeout_ns is None ==> started.0@.plan->0.timeout_ns == pacing.max_timeout_tx_send_ms
            * 1_000_000,
        started.0@.level == level,
        started.0@.level.commitment == level.commitment,
        started.0@.count == count,
        started.0@.entries.len() == 0,
        started.0@.pacing == pacing,
{
}

/// A retried group has to have a transaction; the first one's blockhash stands for
/// all, and the group starts as `retried_start_is_exact` says.
pub proof fn retried_group_start_is_exact<E, C>(
    recent_blockhashes: &Vec<Blockhash>,
    timeout_ns: Option<u128>,
    skip_all_preflights: bool,
    level: CommitmentConfig,
    pacing: Pacing,
    started: Result<(Session<E>, Action<C>), ErrorKind>,
)
    requires
        call_ensures(
            Session::<E>::send_retry_and_confirm::<C>,
            (recent_blockhashes, timeout_ns, skip_all_preflights, level, pacing),
            started,
        ),
    ensures
        recent_blockhashes@.len() == 0 ==> started is Err && started->Err_0
            == ErrorKind::NoTransactions,
        recent_blockhashes@.len() > 0 ==> started is Ok,
        started matches Ok((session, action)) ==> {
            &&& skip_all_preflights ==> action == Action::<C>::SendAll(SendMode::NoRetryNoPreflight)
            &&& !skip_all_preflights ==> action == Action::<C>::SendAll(SendMode::NoRetry)
            &&& session@.phase == Phase::Sending
            &&& session@.plan is Some
            &&& session@.plan->0.blockhash == recent_blockhashes@[0]
            &&& timeout_ns matches Some(timeout) ==> session@.plan->0.timeout_ns == timeout
            &&& timeout_ns is None ==> session@.plan->0.timeout_ns == pacing.max_timeout_tx_send_ms
                * 1_000_000
            &&& session@.level == level
            &&& session@.count == recent_blockhashes@.len()
            &&& session@.entries.len() == 0
            &&& session@.pacing == pacing
        },
{
}

/// What a session was started with never changes: how many transactions there are,
/// the commitment, the pauses, the blockhash and the timeout.
pub proof fn settings_stay<E, C>(session: &mut Session<E>, event: Event<E, C>, action: Action<C>)
    requires
        call_ensures(Session::<E>::step::<C>, (session, event), action),
    ensures
        final(session)@.count == old(session)@.count,
        final(session)@.level == old(session)@.level,
        final(session)@.pacing == old(session)@.pacing,
        final(session)@.plan == old(session)@.plan,
{
}

/// When all transactions were sent, each entry holds the signature of its own
/// transaction and no result; what is retried looks at the clock, and what is not
/// waits for its first attempt, or is over where there is none to make.
pub proof fn sending_is_taken_in<E, C>(
    session: &mut Session<E>,
    results: Vec<Result<Signature, C>>,
    action: Action<C>,
)
    requires
        call_ensures(Session::<E>::step::<C>, (session, Event::Sent(results)), action),
        forall|i: int| 0 <= i < results@.len() ==> (#[trigger] results@[i]) is Ok,
    ensures
        final(session)@.entries.len() == results@.len(),
        forall|i: int|
            0 <= i < results@.len() ==> (#[trigger] final(session)@.entries[i]).0
                == results@[i]->Ok_0 && final(session)@.entries[i].1 is None,
        final(session)@.attempts_left == old(session)@.attempts_left,
        old(session)@.plan is Some ==> action is ReadClock && final(session)@.phase
            == Phase::RetryClock,
        old(session)@.plan is None && (old(session)@.attempts_left == 0 || results@.len() == 0)
            ==> action is Finish && final(session)@.phase == Phase::Done,
        old(session)@.plan is None && old(session)@.attempts_left > 0 && results@.len() > 0 ==> {
            &&& action matches Action::Sleep(pause_ns)
            &&& pause_ns == old(session)@.pacing.default_status_fetch_delay_ms * 1_000_000
            &&& final(session)@.phase == Phase::ConfirmPause
        },
{
    collected_is_exact(results@);
    let entries = final(session)@.entries;
    open_positions_are_exact(entries);
    if results@.len() > 0 {
        assert(results@[0] is Ok);
        assert(entries[0].1 is None);
        assert(open_positions(entries).contains(0));
    }
}

/// Where a first sending failed, the session fails with the first of the errors.
pub proof fn sending_error_is_reported<E, C>(
    session: &mut Session<E>,
    results: Vec<Result<Signature, C>>,
    action: Action<C>,
    first: int,
)
    requires
        call_ensures(Session::<E>::step::<C>, (session, Event::Sent(results)), action),
        0 <= first < results@.len(),
        results@[first] is Err,
        forall|i: int| 0 <= i < first ==> (#[trigger] results@[i]) is Ok,
    ensures
        action == Action::<C>::Fail(results@[first]->Err_0),
        final(session)@.phase == Phase::Failed,
{
    collected_is_exact(results@);
}

/// A request that fails ends the session with its error.
pub proof fn request_error_is_reported<E, C>(
    session: &mut Session<E>,
    event: Event<E, C>,
    action: Action<C>,
    error: C,
)
    requires
        call_ensures(Session::<E>::step::<C>, (session, event), action),
        event == Event::<E, C>::BlockhashValid(Err(error)) || event == Event::<E, C>::Statuses(
            Err(error),
        ),
    ensures
        action == Action::<C>::Fail(error),
        final(session)@.phase == Phase::Failed,
        final(session)@.entries == old(session)@.entries,
{
}

/// At the head of the retry loop: before the timeout the session asks about its own
/// blockhash, and from the timeout on it leaves the loop.
pub proof fn round_begins_before_timeout<E, C>(
    session: &mut Session<E>,
    elapsed_ns: u128,
    action: Action<C>,
    plan: RetryPlan,
)
    requires
        call_ensures(Session::<E>::step::<C>, (session, Event::Elapsed(elapsed_ns)), action),
        old(session)@.phase == Phase::RetryClock,
        old(session)@.plan == Some(plan),
    ensures
        elapsed_ns < plan.timeout_ns ==> action == Action::<C>::CheckBlockhash(plan.blockhash)
            && final(session)@.phase == Phase::RetryBlockhash,
        elapsed_ns >= plan.timeout_ns ==> action is ReadClock && final(session)@.phase
            == Phase::DeadlineClock,
        final(session)@.entries == old(session)@.entries,
{
}

/// With a valid blockhash the session asks for the statuses of all transactions
/// without a result, in order, and for no others; without one it leaves the loop.
pub proof fn valid_blockhash_goes_on<E, C>(
    session: &mut Session<E>,
    valid: bool,
    action: Action<C>,
)
    requires
        call_ensures(Session::<E>::step::<C>, (session, Event::BlockhashValid(Ok(valid))), action),
    ensures
        valid ==> {
            &&& action matches Action::FetchStatuses(signatures)
            &&& signatures@.len() == without_result(old(session)@.entries).len()
            &&& forall|k: int|
                0 <= k < signatures@.len() ==> (#[trigger] signatures@[k]) == without_result(
                    old(session)@.entries,
                )[k].0
            &&& final(session)@.phase == Phase::RetryStatuses
        },
        !valid ==> action is ReadClock && final(session)@.phase == Phase::DeadlineClock,
        final(session)@.entries == old(session)@.entries,
{
    open_entries_are_exact(old(session)@.entries);
}

/// What statuses do to each transaction, in the retry loop and when confirming: the
/// signature stays, a known result stays, an error that is reported becomes the
/// result at once, and success does exactly if the commitment of the session is
/// satisfied.
pub proof fn statuses_settle_results<E, C>(
    session: &mut Session<E>,
    statuses: Vec<Option<TransactionStatus<E>>>,
    action: Action<C>,
    i: int,
    status: TransactionStatus<E>,
    satisfied: bool,
)
    requires
        call_ensures(Session::<E>::step::<C>, (session, Event::Statuses(Ok(statuses))), action),
        0 <= i < old(session)@.entries.len(),
        call_ensures(
            TransactionStatus::<E>::satisfies_commitment,
            (&status, old(session)@.level),
            satisfied,
        ),
    ensures
        final(session)@.entries.len() == old(session)@.entries.len(),
        final(session)@.entries[i].0 == old(session)@.entries[i].0,
        old(session)@.entries[i].1 is Some ==> final(session)@.entries[i].1 == old(session)@.entries[i].1,
        ({
            let k = without_result(old(session)@.entries.take(i)).len() as int;
            old(session)@.entries[i].1 is None ==> {
                &&& k >= statuses@.len() ==> final(session)@.entries[i].1 is None
                &&& k < statuses@.len() && statuses@[k] is None ==> final(session)@.entries[i].1 is None
                &&& k < statuses@.len() && statuses@[k] == Some(status) ==> {
                    &&& status.err matches Some(error) ==> final(session)@.entries[i].1 == Some(
                        Err::<(), E>(error),
                    )
                    &&& status.err is None && satisfied ==> final(session)@.entries[i].1 == Some(
                        Ok::<(), E>(()),
                    )
                    &&& status.err is None && !satisfied ==> final(session)@.entries[i].1 is None
                }
            }
        }),
{
    open_entries_are_exact(old(session)@.entries);
    assert(rank(old(session)@.entries, i) == without_result(
        old(session)@.entries.take(i),
    ).len());
}

/// A round of the retry loop sends again every transaction without a result and no
/// other, without simulation; where all have one, the loop is over.
pub proof fn round_resends_the_rest<E, C>(
    session: &mut Session<E>,
    statuses: Vec<Option<TransactionStatus<E>>>,
    action: Action<C>,
)
    requires
        call_ensures(Session::<E>::step::<C>, (session, Event::Statuses(Ok(statuses))), action),
        old(session)@.phase == Phase::RetryStatuses,
    ensures
        ({
            let entries = final(session)@.entries;
            if without_result(entries).len() == 0 {
                action is ReadClock && final(session)@.phase == Phase::DeadlineClock
            } else {
                &&& action matches Action::Resend { mode, positions }
                &&& mode == SendMode::NoRetryNoPreflight
                &&& positions@.len() == without_result(entries).len()
                &&& forall|k: int|
                    0 <= k < positions@.len() ==> (#[trigger] positions@[k]) < entries.len()
                        && entries[positions@[k] as int].1 is None
                &&& forall|j: int, k: int|
                    0 <= j < k < positions@.len() ==> positions@[j] < positions@[k]
                &&& final(session)@.phase == Phase::RetryResend
            }
        }),
{
    let entries = final(session)@.entries;
    open_positions_are_exact(entries);
    open_entries_are_exact(entries);
    if without_result(entries).len() > 0 {
        if let Action::Resend { mode, positions } = action {
            let spec_positions = positions@.map_values(|position: usize| position as int);
            assert(spec_positions == open_positions(entries));
            assert forall|k: int| 0 <= k < positions@.len() implies (#[trigger] positions@[k])
                < entries.len() && entries[positions@[k] as int].1 is None by {
                assert(spec_positions[k] == positions@[k]);
                assert(open_positions(entries).contains(spec_positions[k]));
            }
            assert forall|j: int, k: int| 0 <= j < k < positions@.len() implies positions@[j]
                < positions@[k] by {
                assert(spec_positions[j] < spec_positions[k]);
            }
        }
    }
}

/// After a resend the clock is read; before the timeout the pause is the one between
/// rounds, or what is left of the time if that is less, and then the next round
/// begins with the clock; from the timeout on the loop is over.
pub proof fn rounds_are_paced<E, C>(
    session: &mut Session<E>,
    event: Event<E, C>,
    action: Action<C>,
    plan: RetryPlan,
)
    requires
        call_ensures(Session::<E>::step::<C>, (session, event), action),
        old(session)@.plan == Some(plan),
    ensures
        final(session)@.entries == old(session)@.entries || !(event is Resent || (event is Slept)
            || old(session)@.phase == Phase::RetryPauseClock && event is Elapsed),
        event is Resent ==> action is ReadClock && final(session)@.phase == Phase::RetryPauseClock,
        event is Slept && old(session)@.phase == Phase::RetryPause ==> action is ReadClock && final(session)@.phase == Phase::RetryClock,
        old(session)@.phase == Phase::RetryPauseClock ==> match event {
            Event::Elapsed(elapsed_ns) => if elapsed_ns < plan.timeout_ns {
                let delay_ns = old(session)@.pacing.delay_ms_between_tx_send_retry * 1_000_000;
                let left_ns = plan.timeout_ns - elapsed_ns;
                &&& action matches Action::Sleep(pause_ns)
                &&& pause_ns == if delay_ns <= left_ns {
                    delay_ns
                } else {
                    left_ns
                }
                &&& final(session)@.phase == Phase::RetryPause
            } else {
                action is ReadClock && final(session)@.phase == Phase::DeadlineClock
            },
            _ => true,
        },
{
}

/// When the retry loop is over all results are forgotten, and the attempts are
/// counted that fit in the whole milliseconds left.
pub proof fn deadline_is_exact<E, C>(
    session: &mut Session<E>,
    elapsed_ns: u128,
    action: Action<C>,
    plan: RetryPlan,
)
    requires
        call_ensures(Session::<E>::step::<C>, (session, Event::Elapsed(elapsed_ns)), action),
        old(session)@.phase == Phase::DeadlineClock,
        old(session)@.plan == Some(plan),
        plan.timeout_ns - elapsed_ns < 1_000_000 * (u64::MAX + 1),
    ensures
        final(session)@.phase == Phase::AttemptCount,
        action is CountAttempts,
        elapsed_ns >= plan.timeout_ns ==> action == (Action::<C>::CountAttempts { timeout_ms: 0 })
            && final(session)@.time_left_ns == 0,
        elapsed_ns < plan.timeout_ns ==> final(session)@.time_left_ns == plan.timeout_ns
            - elapsed_ns,
        elapsed_ns < plan.timeout_ns ==> action->timeout_ms * 1_000_000 <= plan.timeout_ns
            - elapsed_ns < (action->timeout_ms + 1) * 1_000_000,
        final(session)@.entries.len() == old(session)@.entries.len(),
        forall|i: int|
            0 <= i < old(session)@.entries.len() ==> (#[trigger] final(session)@.entries[i]).0
                == old(session)@.entries[i].0 && final(session)@.entries[i].1 is None,
{
}

/// A retried group gets the attempts counted, and one at least. The first comes after
/// the pause before a look-up, or after what is left of the time if that is less, and
/// at once where nothing is left.
pub proof fn first_attempt_is_exact<E, C>(
    session: &mut Session<E>,
    attempts: usize,
    action: Action<C>,
)
    requires
        call_ensures(Session::<E>::step::<C>, (session, Event::Attempts(attempts)), action),
    ensures
        attempts >= 1 ==> final(session)@.attempts_left == attempts,
        attempts == 0 ==> final(session)@.attempts_left == 1,
        final(session)@.entries == old(session)@.entries,
        ({
            let delay_ns = old(session)@.pacing.default_status_fetch_delay_ms * 1_000_000;
            let left_ns = old(session)@.time_left_ns;
            if left_ns > 0 {
                &&& action matches Action::Sleep(pause_ns)
                &&& pause_ns == if delay_ns <= left_ns {
                    delay_ns
                } else {
                    left_ns as int
                }
                &&& final(session)@.phase == Phase::ConfirmPause
            } else {
                &&& action matches Action::FetchStatuses(signatures)
                &&& signatures@.len() == without_result(old(session)@.entries).len()
                &&& forall|k: int|
                    0 <= k < signatures@.len() ==> (#[trigger] signatures@[k]) == without_result(
                        old(session)@.entries,
                    )[k].0
                &&& final(session)@.phase == Phase::ConfirmStatuses
            }
        }),
{
    open_entries_are_exact(old(session)@.entries);
}

/// After the pause of an attempt the statuses of all transactions without a result
/// are asked for, in order, and of no others.
pub proof fn attempt_asks_for_the_rest<E, C>(session: &mut Session<E>, action: Action<C>)
    requires
        call_ensures(Session::<E>::step::<C>, (session, Event::<E, C>::Slept), action),
        old(session)@.phase == Phase::ConfirmPause,
    ensures
        ({
            &&& action matches Action::FetchStatuses(signatures)
            &&& signatures@.len() == without_result(old(session)@.entries).len()
            &&& forall|k: int|
                0 <= k < signatures@.len() ==> (#[trigger] signatures@[k]) == without_result(
                    old(session)@.entries,
                )[k].0
        }),
        final(session)@.phase == Phase::ConfirmStatuses,
        final(session)@.entries == old(session)@.entries,
        final(session)@.attempts_left == old(session)@.attempts_left,
{
    open_entries_are_exact(old(session)@.entries);
}

/// An answer uses up one attempt. The session is over exactly if none is left or
/// every transaction has a result; else a retried one looks at the clock and another
/// one pauses.
pub proof fn attempt_is_used_up<E, C>(
    session: &mut Session<E>,
    statuses: Vec<Option<TransactionStatus<E>>>,
    action: Action<C>,
)
    requires
        call_ensures(Session::<E>::step::<C>, (session, Event::Statuses(Ok(statuses))), action),
        old(session)@.phase == Phase::ConfirmStatuses,
        old(session)@.attempts_left > 0,
    ensures
        final(session)@.attempts_left == old(session)@.attempts_left - 1,
        ({
            let over = old(session)@.attempts_left == 1 || without_result(
                final(session)@.entries,
            ).len() == 0;
            &&& over ==> action is Finish && final(session)@.phase == Phase::Done
            &&& !over && old(session)@.plan is Some ==> action is ReadClock && final(session)@.phase
                == Phase::ConfirmClock
            &&& !over && old(session)@.plan is None ==> {
                &&& action matches Action::Sleep(pause_ns)
                &&& pause_ns == old(session)@.pacing.default_status_fetch_delay_ms * 1_000_000
                &&& final(session)@.phase == Phase::ConfirmPause
            }
        }),
{
    open_entries_are_exact(final(session)@.entries);
}

/// Before another attempt of a retried session: the pause before a look-up, or what
/// is left of the time if that is less; from the timeout on the session is over.
pub proof fn attempts_are_paced<E, C>(
    session: &mut Session<E>,
    elapsed_ns: u128,
    action: Action<C>,
    plan: RetryPlan,
)
    requires
        call_ensures(Session::<E>::step::<C>, (session, Event::Elapsed(elapsed_ns)), action),
        old(session)@.phase == Phase::ConfirmClock,
        old(session)@.plan == Some(plan),
    ensures
        final(session)@.entries == old(session)@.entries,
        final(session)@.attempts_left == old(session)@.attempts_left,
        elapsed_ns >= plan.timeout_ns ==> action is Finish && final(session)@.phase == Phase::Done,
        elapsed_ns < plan.timeout_ns ==> {
            let delay_ns = old(session)@.pacing.default_status_fetch_delay_ms * 1_000_000;
            let left_ns = plan.timeout_ns - elapsed_ns;
            &&& action matches Action::Sleep(pause_ns)
            &&& pause_ns == if delay_ns <= left_ns {
                delay_ns
            } else {
                left_ns
            }
            &&& final(session)@.phase == Phase::ConfirmPause
        },
{
}

/// What is handed back are the signatures and results of the session, all of them and
/// in order; and for a single transaction, its own.
pub proof fn results_are_handed_back<E>(
    session: Session<E>,
    results: Vec<Entry<E>>,
    single: Entry<E>,
)
    requires
        call_ensures(Session::<E>::into_results, (session,), results),
        call_ensures(single_result::<E>, (results,), single),
    ensures
        results@.len() == session@.entries.len(),
        forall|i: int| 0 <= i < results@.len() ==> (#[trigger] results@[i]) == session@.entries[i],
        single == session@.entries[0],
{
}

/// The phase that is told is the one that the session is in.
pub proof fn phase_is_told<E>(session: &Session<E>, phase: Phase)
    requires
        call_ensures(Session::<E>::phase, (session,), phase),
    ensures
        phase == session@.phase,
{
}

/// A list of results without an error gives all its values in order; one with errors
/// gives the first of them.
pub proof fn collecting_is_exact<T, C>(results: Vec<Result<T, C>>, outcome: Result<Vec<T>, C>)
    requires
        call_ensures(collect_results::<T, C>, (results,), outcome),
    ensures
        match outcome {
            Ok(values) => {
                &&& values@.len() == results@.len()
                &&& forall|i: int|
                    0 <= i < results@.len() ==> (#[trigger] results@[i]) == Ok::<T, C>(values@[i])
            },
            Err(error) => exists|i: int|
                0 <= i < results@.len() && (#[trigger] results@[i]) == Err::<T, C>(error) && forall|
                    j: int,
                |
                    0 <= j < i ==> (#[trigger] results@[j]) is Ok,
        },
{
    collected_is_exact(results@);
}

/// Over a whole run: what a caller is told of a transaction is what a node reported
/// of it. It is told of a success only if a status without an error came in that had
/// reached the commitment of the session, and of an error only if a status came in
/// with that error.
pub proof fn told_results_were_reported<E, C>(
    start: SessionState<E>,
    events: Seq<Event<E, C>>,
    i: int,
)
    requires
        start.wf(),
        start.phase == Phase::Sending,
        follows(start, events),
        0 <= i < start.count,
        run(start, events).phase == Phase::Done,
    ensures
        run(start, events).entries[i].1 matches Some(result) ==> exists|k: int|
            {
                &&& 0 <= k < events.len()
                &&& #[trigger] status_for(
                    run(start, events.take(k)),
                    events[k],
                    i,
                ) matches Some(status)
                &&& match result {
                    Err(error) => status.err == Some(error),
                    Ok(_) => {
                        &&& status.err is None
                        &&& start.level.commitment == CommitmentLevel::Finalized
                            ==> status.confirmations is None
                        &&& start.level.commitment == CommitmentLevel::Confirmed
                            ==> match status.confirmation_status {
                            Some(told) => told != TransactionConfirmationStatus::Processed,
                            None => status.confirmations is None || status.confirmations->0 >= 2,
                        }
                    },
                }
            },
{
    results_are_the_reported_ones(start, events, i);
    if let Some(result) = run(start, events).entries[i].1 {
        let k = choose|k: int|
            0 <= k < events.len() && #[trigger] confirmed_by(
                start,
                events,
                k,
                i,
            ) == Some(result);
        assert(status_for(run(start, events.take(k)), events[k], i) is Some);
    }
}

} // verus!
