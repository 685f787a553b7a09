//! What holds of a whole session, whatever its driver and the network do.
use vstd::prelude::*;

use crate::session::{
    collected, first_send_mode, time_left, ActionView, Event, Phase, SendMode, SessionState,
};
use crate::status::{
    open_positions, rank, reaches, signatures_of, verdict, Entry, TransactionResult,
    TransactionStatus,
};

verus! {

/// The state after all of `events`.
pub open spec fn run<E, C>(state: SessionState<E>, events: Seq<Event<E, C>>) -> SessionState<E>
    decreases events.len(),
{
    if events.len() == 0 {
        state
    } else {
        run(state, events.drop_last()).next(events.last()).0
    }
}

/// Whether each of `events` is what the session waits for when it comes.
pub open spec fn follows<E, C>(state: SessionState<E>, events: Seq<Event<E, C>>) -> bool
    decreases events.len(),
{
    events.len() > 0 ==> follows(state, events.drop_last()) && run(
        state,
        events.drop_last(),
    ).expects(events.last())
}

/// The status that `event` brings for the transaction at position `i`, if the
/// session waits for one.
pub open spec fn status_for<E, C>(
    state: SessionState<E>,
    event: Event<E, C>,
    i: int,
) -> Option<TransactionStatus<E>> {
    match event {
        Event::Statuses(Ok(statuses)) => {
            let k = rank(state.entries, i);
            if state.entries[i].1 is None && k < statuses@.len() {
                statuses@[k]
            } else {
                None
            }
        },
        _ => None,
    }
}

/// Whether the session is past its retry loop.
pub open spec fn past_retry_loop(phase: Phase) -> bool {
    match phase {
        Phase::DeadlineClock
        | Phase::AttemptCount
        | Phase::ConfirmClock
        | Phase::ConfirmPause
        | Phase::ConfirmStatuses
        | Phase::Done
        | Phase::Failed => true,
        _ => false,
    }
}

/// The positions without a result are exactly those listed, each once, in order.
pub proof fn open_positions_are_exact<E>(entries: Seq<Entry<E>>)
    ensures
        forall|p: int|
            #[trigger] open_positions(entries).contains(p) <==> 0 <= p < entries.len()
                && entries[p].1 is None,
        forall|j: int, k: int|
            0 <= j < k < open_positions(entries).len() ==> open_positions(entries)[j]
                < open_positions(entries)[k],
    decreases entries.len(),
{
    let positions = open_positions(entries);
    if entries.len() > 0 {
        let shorter = entries.drop_last();
        open_positions_are_exact(shorter);
        let before = open_positions(shorter);
        assert forall|k: int| 0 <= k < before.len() implies 0 <= #[trigger] before[k]
            < entries.len() - 1 by {
            assert(before.contains(before[k]));
        }
        assert forall|p: int|
            #[trigger] positions.contains(p) <==> 0 <= p < entries.len() && entries[p].1 is None by {
            if entries.last().1 is None {
                assert(positions == before.push(entries.len() - 1));
                if before.contains(p) {
                    let k = before.index_of(p);
                    assert(positions[k] == p);
                }
                if p == entries.len() - 1 {
                    assert(positions[before.len() as int] == p);
                }
            }
            assert(before.contains(p) <==> 0 <= p < shorter.len() && shorter[p].1 is None);
        }
    }
}

/// Every event that a session waits for leaves it in a well-formed state.
pub proof fn step_keeps_wf<E, C>(state: SessionState<E>, event: Event<E, C>)
    requires
        state.wf(),
        state.expects(event),
    ensures
        state.next(event).0.wf(),
{
    if let Event::Sent(results) = event {
        collected_is_exact(results@);
    }
}

/// A well-formed session stays well formed, whatever happens.
pub proof fn run_keeps_wf<E, C>(state: SessionState<E>, events: Seq<Event<E, C>>)
    requires
        state.wf(),
        follows(state, events),
    ensures
        run(state, events).wf(),
    decreases events.len(),
{
    if events.len() > 0 {
        run_keeps_wf(state, events.drop_last());
        step_keeps_wf(run(state, events.drop_last()), events.last());
    }
}

/// Collecting gives the values, in order, where no result is an error, and the
/// first error otherwise.
pub proof fn collected_is_exact<T, C>(results: Seq<Result<T, C>>)
    ensures
        match collected(results) {
            Ok(values) => {
                &&& values.len() == results.len()
                &&& forall|i: int|
                    0 <= i < results.len() ==> (#[trigger] results[i]) == Ok::<T, C>(values[i])
            },
            Err(error) => exists|i: int|
                0 <= i < results.len() && (#[trigger] results[i]) == Err::<T, C>(error) && forall|
                    j: int,
                |
                    0 <= j < i ==> (#[trigger] results[j]) is Ok,
        },
    decreases results.len(),
{
    if results.len() > 0 {
        let shorter = results.drop_last();
        collected_is_exact(shorter);
        match collected(shorter) {
            Err(error) => {
                let i = choose|i: int|
                    0 <= i < shorter.len() && (#[trigger] shorter[i]) == Err::<T, C>(error)
                        && forall|j: int| 0 <= j < i ==> (#[trigger] shorter[j]) is Ok;
                assert(results[i] == Err::<T, C>(error));
                assert forall|j: int| 0 <= j < i implies (#[trigger] results[j]) is Ok by {
                    assert(shorter[j] is Ok);
                }
            },
            Ok(values) => {
                assert forall|j: int| 0 <= j < shorter.len() implies (#[trigger] results[j])
                    == Ok::<T, C>(values[j]) by {
                    assert(shorter[j] == Ok::<T, C>(values[j]));
                }
                assert(results[results.len() - 1] == results.last());
            },
        }
    }
}

/// Once the transactions were sent, no step changes a signature or its place.
pub proof fn step_keeps_signatures<E, C>(state: SessionState<E>, event: Event<E, C>)
    requires
        state.wf(),
        state.expects(event),
        state.phase != Phase::Sending,
    ensures
        signatures_of(state.next(event).0.entries) == signatures_of(state.entries),
{
    assert(signatures_of(state.next(event).0.entries) == signatures_of(state.entries));
}

/// In every state of a session that has not failed, the entries follow the
/// transactions: there is one for each, in order, and it holds the signature that
/// came back when that transaction was sent first.
pub proof fn entries_follow_transactions<E, C>(
    start: SessionState<E>,
    events: Seq<Event<E, C>>,
    i: int,
)
    requires
        start.wf(),
        start.phase == Phase::Sending,
        follows(start, events),
        events.len() > 0,
        run(start, events).phase != Phase::Failed,
        0 <= i < start.count,
    ensures
        run(start, events).entries.len() == start.count,
        events[0] matches Event::Sent(results) && results@.len() == start.count && results@[i]
            == Ok::<_, C>(run(start, events).entries[i].0),
    decreases events.len(),
{
    let earlier = events.drop_last();
    let before = run(start, earlier);
    run_keeps_wf(start, earlier);
    run_keeps_wf(start, events);
    if earlier.len() == 0 {
        assert(before == start);
        assert(events.last() == events[0]);
        if let Event::Sent(results) = events[0] {
            collected_is_exact(results@);
            assert(results@[i] == Ok::<_, C>(run(start, events).entries[i].0));
        }
    } else {
        run_keeps_count(start, earlier);
        assert(before.phase != Phase::Failed);
        entries_follow_transactions(start, earlier, i);
        sending_is_first(start, earlier);
        step_keeps_signatures(before, events.last());
        assert(signatures_of(before.entries)[i] == before.entries[i].0);
        assert(signatures_of(run(start, events).entries)[i] == run(start, events).entries[i].0);
        assert(events[0] == earlier[0]);
    }
}

/// What the session was started with stays: the number of transactions, the plan
/// of the retry loop, the pauses and the commitment asked for.
pub proof fn run_keeps_count<E, C>(state: SessionState<E>, events: Seq<Event<E, C>>)
    ensures
        run(state, events).count == state.count,
        run(state, events).plan == state.plan,
        run(state, events).pacing == state.pacing,
        run(state, events).level == state.level,
    decreases events.len(),
{
    if events.len() > 0 {
        run_keeps_count(state, events.drop_last());
    }
}

/// Transactions are sent for the first time once, at the start.
pub proof fn sending_is_first<E, C>(state: SessionState<E>, events: Seq<Event<E, C>>)
    requires
        follows(state, events),
        events.len() > 0,
    ensures
        run(state, events).phase != Phase::Sending,
{
}

/// Whether the session has nothing left but to confirm.
pub open spec fn in_confirmation(phase: Phase) -> bool {
    match phase {
        Phase::AttemptCount
        | Phase::ConfirmClock
        | Phase::ConfirmPause
        | Phase::ConfirmStatuses
        | Phase::Done
        | Phase::Failed => true,
        _ => false,
    }
}

/// The result that the event at place `k` gives the transaction at position `i` at
/// the commitment asked for: the verdict of the status that it brings, if the
/// session was confirming then and waited for one.
pub open spec fn confirmed_by<E, C>(
    start: SessionState<E>,
    events: Seq<Event<E, C>>,
    k: int,
    i: int,
) -> Option<TransactionResult<E>> {
    let state = run(start, events.take(k));
    match status_for(state, events[k], i) {
        Some(status) => if state.phase == Phase::ConfirmStatuses {
            verdict(status, start.level.commitment)
        } else {
            None
        },
        None => None,
    }
}

/// After the retry loop all results are fetched anew: each transaction keeps its
/// signature and has no result.
pub proof fn confirmation_starts_afresh<E, C>(state: SessionState<E>, event: Event<E, C>, i: int)
    requires
        state.wf(),
        state.phase == Phase::DeadlineClock,
        state.expects(event),
        0 <= i < state.count,
    ensures
        state.next(event).0.phase == Phase::AttemptCount,
        state.next(event).0.entries[i] == (state.entries[i].0, None::<TransactionResult<E>>),
{
}

/// What the caller gets is what the network reported at the commitment asked for.
/// When a session is done, and at every moment from the end of its retry loop on
/// unless it fails, a transaction has a result exactly if a status that came in
/// while confirming gave it that result; it has none exactly if no such status had
/// a verdict, which is to say that the transaction was not confirmed.
pub proof fn results_are_the_reported_ones<E, C>(
    start: SessionState<E>,
    events: Seq<Event<E, C>>,
    i: int,
)
    requires
        start.wf(),
        start.phase == Phase::Sending,
        follows(start, events),
        0 <= i < start.count,
        in_confirmation(run(start, events).phase),
        run(start, events).phase != Phase::Failed,
    ensures
        run(start, events).entries.len() == start.count,
        match run(start, events).entries[i].1 {
            Some(result) => exists|k: int|
                0 <= k < events.len() && #[trigger] confirmed_by(start, events, k, i) == Some(
                    result,
                ),
            None => forall|k: int|
                0 <= k < events.len() ==> (#[trigger] confirmed_by(start, events, k, i)) is None,
        },
{
    reported_results(start, events, i);
    run_keeps_wf(start, events);
    run_keeps_count(start, events);
}

/// What one step does to the result of a transaction: it is forgotten when confirming
/// begins, and set by a status that comes in while confirming.
proof fn step_changes_results<E, C>(state: SessionState<E>, event: Event<E, C>, i: int)
    requires
        state.wf(),
        state.expects(event),
        0 <= i < state.count,
        state.next(event).0.phase != Phase::Failed,
    ensures
        in_confirmation(state.phase) ==> in_confirmation(state.next(event).0.phase),
        in_confirmation(state.phase) ==> state.next(event).0.entries[i].1 == if state.phase
            == Phase::ConfirmStatuses && status_for(state, event, i) is Some {
            verdict(status_for(state, event, i)->0, state.level.commitment)
        } else {
            state.entries[i].1
        },
        !in_confirmation(state.phase) && in_confirmation(state.next(event).0.phase) ==> state.next(
            event,
        ).0.entries[i].1 is None,
        state.entries[i].1 is Some ==> status_for(state, event, i) is None,
{
    if let Event::Sent(results) = event {
        collected_is_exact(results@);
    }
}

/// The results of every state that has not failed, by induction over the events:
/// before confirming begins no event counts, afterwards exactly those that
/// brought a verdict.
#[verifier::spinoff_prover]
proof fn reported_results<E, C>(start: SessionState<E>, events: Seq<Event<E, C>>, i: int)
    requires
        start.wf(),
        start.phase == Phase::Sending,
        follows(start, events),
        0 <= i < start.count,
        run(start, events).phase != Phase::Failed,
    ensures
        !in_confirmation(run(start, events).phase) ==> forall|k: int|
            0 <= k < events.len() ==> (#[trigger] confirmed_by(start, events, k, i)) is None,
        in_confirmation(run(start, events).phase) ==> match run(start, events).entries[i].1 {
            Some(result) => exists|k: int|
                0 <= k < events.len() && #[trigger] confirmed_by(start, events, k, i) == Some(
                    result,
                ),
            None => forall|k: int|
                0 <= k < events.len() ==> (#[trigger] confirmed_by(start, events, k, i)) is None,
        },
    decreases events.len(),
{
    if events.len() > 0 {
        let earlier = events.drop_last();
        let last = events.len() - 1;
        let before = run(start, earlier);
        let after = run(start, events);
        reported_results(start, earlier, i);
        run_keeps_wf(start, earlier);
        run_keeps_count(start, earlier);
        step_changes_results(before, events.last(), i);
        assert forall|k: int| 0 <= k < last implies confirmed_by(start, events, k, i)
            == #[trigger] confirmed_by(start, earlier, k, i) by {
            assert(earlier.take(k) == events.take(k));
        }
        assert(events.take(last) == earlier);
        if before.phase == Phase::ConfirmStatuses && before.entries[i].1 is Some {
            let result = before.entries[i].1->0;
            let k = choose|k: int|
                0 <= k < earlier.len() && #[trigger] confirmed_by(start, earlier, k, i) == Some(
                    result,
                );
            assert(confirmed_by(start, events, k, i) == Some(result));
            assert(after.entries[i].1 == Some(result));
        } else if before.phase == Phase::ConfirmStatuses {
            assert(after.entries[i].1 == confirmed_by(start, events, last, i));
            assert forall|k: int|
                0 <= k < events.len() && after.entries[i].1 is None implies (
            #[trigger] confirmed_by(start, events, k, i)) is None by {
                if k < last {
                    assert(confirmed_by(start, earlier, k, i) is None);
                }
            }
        } else {
            assert(confirmed_by(start, events, last, i) is None);
            if in_confirmation(before.phase) {
                assert(after.entries[i].1 == before.entries[i].1);
                if after.entries[i].1 is Some {
                    let result = before.entries[i].1->0;
                    let k = choose|k: int|
                        0 <= k < earlier.len() && #[trigger] confirmed_by(start, earlier, k, i)
                            == Some(result);
                    assert(confirmed_by(start, events, k, i) == Some(result));
                }
            } else if in_confirmation(after.phase) {
                assert(after.entries[i].1 is None);
            }
            assert forall|k: int|
                0 <= k < events.len() && (!in_confirmation(before.phase) || before.entries[i].1 is None)
                implies (#[trigger] confirmed_by(start, events, k, i)) is None by {
                if k < last {
                    assert(confirmed_by(start, earlier, k, i) is None);
                }
            }
        }
    }
}

/// A result, once known at the commitment asked for, never changes.
pub proof fn result_stays<E, C>(state: SessionState<E>, events: Seq<Event<E, C>>, i: int)
    requires
        state.wf(),
        in_confirmation(state.phase),
        follows(state, events),
        0 <= i < state.entries.len(),
        state.entries[i].1 is Some,
    ensures
        in_confirmation(run(state, events).phase),
        run(state, events).entries.len() == state.entries.len(),
        run(state, events).entries[i] == state.entries[i],
    decreases events.len(),
{
    if events.len() > 0 {
        result_stays(state, events.drop_last(), i);
        run_keeps_wf(state, events.drop_last());
    }
}

/// How many events a session that confirms can still take in: two for each attempt,
/// and one more where the time is limited.
pub open spec fn events_left<E>(state: SessionState<E>) -> int {
    let attempts = state.attempts_left as int;
    match state.phase {
        Phase::ConfirmClock => 3 * attempts,
        Phase::ConfirmPause => if state.plan is Some {
            3 * attempts - 1
        } else {
            2 * attempts
        },
        Phase::ConfirmStatuses => if state.plan is Some {
            3 * attempts - 2
        } else {
            2 * attempts - 1
        },
        _ => 0,
    }
}

/// How many of `events` are answers to a request for statuses.
pub open spec fn fetches<E, C>(events: Seq<Event<E, C>>) -> nat
    decreases events.len(),
{
    if events.len() == 0 {
        0
    } else if events.last() is Statuses {
        fetches(events.drop_last()) + 1
    } else {
        fetches(events.drop_last())
    }
}

/// Confirming comes to an end: with `n` attempts left statuses are fetched exactly
/// `n` times, unless all results are known before, a request fails or the time is up;
/// and after a bounded number of events the session is over.
pub proof fn confirmation_ends<E, C>(state: SessionState<E>, events: Seq<Event<E, C>>)
    requires
        state.wf(),
        state.confirming(),
        follows(state, events),
    ensures
        fetches(events) <= state.attempts_left,
        run(state, events).confirming() ==> fetches(events) + run(state, events).attempts_left
            == state.attempts_left,
        run(state, events).phase == Phase::Done ==> ({
            ||| fetches(events) == state.attempts_left
            ||| open_positions(run(state, events).entries).len() == 0
            ||| events.last() matches Event::Elapsed(elapsed_ns) && state.plan is Some
                && elapsed_ns >= state.plan->0.timeout_ns
        }),
        events.len() + events_left(run(state, events)) <= events_left(state),
        events.len() == events_left(state) ==> run(state, events).phase == Phase::Done || run(
            state,
            events,
        ).phase == Phase::Failed,
        run(state, events).confirming() || run(state, events).phase == Phase::Done || run(
            state,
            events,
        ).phase == Phase::Failed,
    decreases events.len(),
{
    if events.len() > 0 {
        confirmation_ends(state, events.drop_last());
        run_keeps_wf(state, events.drop_last());
        run_keeps_count(state, events.drop_last());
    }
    run_keeps_wf(state, events);
}

/// The same state with `more` attempts to confirm.
pub open spec fn with_more_attempts<E>(state: SessionState<E>, more: nat) -> SessionState<E> {
    SessionState { attempts_left: state.attempts_left + more, ..state }
}

/// Attempts add up, where the time is not limited: a session that could confirm with
/// `more` attempts takes the same events as one without them, and where that one is
/// done, it goes on with the attempts that it has left.
pub proof fn attempts_add_up<E, C>(state: SessionState<E>, more: nat, events: Seq<Event<E, C>>)
    requires
        state.wf(),
        state.confirming(),
        state.plan is None,
        follows(state, events),
        run(state, events).phase == Phase::Done,
    ensures
        follows(with_more_attempts(state, more), events),
        run(with_more_attempts(state, more), events) == with_more_attempts(
            run(state, events),
            more,
        ).begin_attempt::<C>().0,
{
    runs_side_by_side(state, more, events);
}

/// A session with more attempts runs beside one with fewer until that one is done.
proof fn runs_side_by_side<E, C>(state: SessionState<E>, more: nat, events: Seq<Event<E, C>>)
    requires
        state.wf(),
        state.confirming(),
        state.plan is None,
        follows(state, events),
    ensures
        follows(with_more_attempts(state, more), events),
        run(with_more_attempts(state, more), events) == if run(state, events).phase == Phase::Done {
            with_more_attempts(run(state, events), more).begin_attempt::<C>().0
        } else {
            with_more_attempts(run(state, events), more)
        },
    decreases events.len(),
{
    if events.len() > 0 {
        let earlier = events.drop_last();
        runs_side_by_side(state, more, earlier);
        confirmation_ends(state, earlier);
        run_keeps_wf(state, earlier);
        run_keeps_count(state, earlier);
    }
}

/// Confirming with `state.attempts_left` attempts, and then once more with `more` of
/// them, is confirming once with all of them, where the time is not limited: the
/// events of the one after those of the other lead to the same results.
pub proof fn confirming_twice_is_confirming_once<E, C>(
    state: SessionState<E>,
    more: nat,
    events: Seq<Event<E, C>>,
    later: Seq<Event<E, C>>,
)
    requires
        state.wf(),
        state.confirming(),
        state.plan is None,
        follows(state, events),
        run(state, events).phase == Phase::Done,
        follows(
            (SessionState { attempts_left: more, ..run(state, events) }).begin_attempt::<C>().0,
            later,
        ),
    ensures
        follows(with_more_attempts(state, more), events + later),
        ({
            let second = run(
                (SessionState { attempts_left: more, ..run(state, events) }).begin_attempt::<C>().0,
                later,
            );
            let once = run(with_more_attempts(state, more), events + later);
            once.phase == second.phase && once.entries == second.entries
        }),
{
    let end = run(state, events);
    let second = (SessionState { attempts_left: more, ..end }).begin_attempt::<C>().0;
    attempts_add_up(state, more, events);
    run_goes_on(with_more_attempts(state, more), events, later);
    confirmation_ends(state, events);
    if open_positions(end.entries).len() == 0 {
        if later.len() > 0 {
            nothing_follows_the_end(second, later);
        }
    } else {
        done_means_used_up(state, events);
        assert(second == with_more_attempts(end, more).begin_attempt::<C>().0);
    }
}

/// A session that is done takes no event.
proof fn nothing_follows_the_end<E, C>(state: SessionState<E>, events: Seq<Event<E, C>>)
    requires
        state.phase == Phase::Done || state.phase == Phase::Failed,
        follows(state, events),
    ensures
        events.len() == 0,
    decreases events.len(),
{
    if events.len() > 0 {
        nothing_follows_the_end(state, events.drop_last());
    }
}

/// Where the time is not limited and a transaction has no result in the end, no
/// attempt is left.
proof fn done_means_used_up<E, C>(state: SessionState<E>, events: Seq<Event<E, C>>)
    requires
        state.wf(),
        state.confirming(),
        state.plan is None,
        follows(state, events),
        run(state, events).phase == Phase::Done,
        open_positions(run(state, events).entries).len() > 0,
    ensures
        run(state, events).attempts_left == 0,
{
    if events.len() > 0 {
        let earlier = events.drop_last();
        confirmation_ends(state, earlier);
        run_keeps_wf(state, earlier);
        run_keeps_count(state, earlier);
    }
}

/// Events can be taken in part by part.
pub proof fn run_goes_on<E, C>(
    state: SessionState<E>,
    events: Seq<Event<E, C>>,
    later: Seq<Event<E, C>>,
)
    ensures
        run(state, events + later) == run(run(state, events), later),
        follows(state, events + later) == (follows(state, events) && follows(
            run(state, events),
            later,
        )),
    decreases later.len(),
{
    if later.len() == 0 {
        assert(events + later == events);
    } else {
        assert((events + later).drop_last() == events + later.drop_last());
        run_goes_on(state, events, later.drop_last());
    }
}

/// A session that finishes has a result for every transaction, or has used up its
/// attempts or its time.
pub proof fn finish_is_earned<E, C>(state: SessionState<E>, event: Event<E, C>)
    requires
        state.wf(),
        state.expects(event),
        state.next(event).1 == ActionView::<C>::Finish,
    ensures
        state.next(event).0.phase == Phase::Done,
        ({
            ||| state.next(event).0.attempts_left == 0
            ||| event matches Event::Elapsed(elapsed_ns) && state.plan is Some && elapsed_ns
                >= state.plan->0.timeout_ns
            ||| forall|i: int|
                0 <= i < state.next(event).0.entries.len() ==> (#[trigger] state.next(
                    event,
                ).0.entries[i]).1 is Some
        }),
{
    let after = state.next(event).0;
    open_positions_are_exact(after.entries);
    if after.attempts_left != 0 && !(event is Elapsed) {
        assert(open_positions(after.entries).len() == 0);
        assert forall|i: int| 0 <= i < after.entries.len() implies (
        #[trigger] after.entries[i]).1 is Some by {
            assert(!open_positions(after.entries).contains(i));
        }
    }
}

/// A group that was retried is looked up at least once in the end, however little
/// time is left; without time left, that is done at once.
pub proof fn retried_group_is_looked_up<E, C>(state: SessionState<E>, event: Event<E, C>)
    requires
        state.wf(),
        state.phase == Phase::AttemptCount,
        state.expects(event),
    ensures
        state.next(event).0.phase == Phase::ConfirmPause || state.next(event).0.phase
            == Phase::ConfirmStatuses,
        state.time_left_ns == 0 ==> state.next(event).1 is FetchStatuses,
        state.next(event).0.attempts_left >= 1,
        event matches Event::Attempts(attempts) && state.next(event).0.attempts_left >= attempts,
{
    open_positions_are_exact(state.entries);
    assert(open_positions(state.entries).contains(0));
}

/// A session fails only with an error that the client reported.
pub proof fn failure_comes_from_client<E, C>(state: SessionState<E>, event: Event<E, C>, error: C)
    requires
        state.wf(),
        state.expects(event),
        state.next(event).1 == ActionView::Fail(error),
    ensures
        match event {
            Event::Sent(results) => results@.contains(Err(error)),
            Event::BlockhashValid(answer) => answer == Err::<bool, C>(error),
            Event::Statuses(answer) => answer is Err && answer->Err_0 == error,
            _ => false,
        },
{
    if let Event::Sent(results) = event {
        collected_is_exact(results@);
    }
}

/// What is sent once more is what no status has settled, and nothing else: every
/// transaction without a result, none with one, and without simulation.
pub proof fn resend_is_exact<E, C>(
    state: SessionState<E>,
    event: Event<E, C>,
    mode: SendMode,
    positions: Seq<int>,
)
    requires
        state.wf(),
        state.expects(event),
        state.next(event).1 == (ActionView::<C>::Resend { mode, positions }),
    ensures
        state.phase == Phase::RetryStatuses,
        mode == SendMode::NoRetryNoPreflight,
        positions.len() > 0,
        forall|p: int|
            #[trigger] positions.contains(p) <==> 0 <= p < state.count && state.next(
                event,
            ).0.entries[p].1 is None,
{
    open_positions_are_exact(state.next(event).0.entries);
}

/// A transaction is sent again until it is confirmed to the commitment asked for: as
/// long as no status came for it, or one without an error that has not reached that
/// commitment, the round sends it once more.
pub proof fn unconfirmed_transaction_is_resent<E, C>(
    state: SessionState<E>,
    event: Event<E, C>,
    i: int,
)
    requires
        state.wf(),
        state.phase == Phase::RetryStatuses,
        state.expects(event),
        event matches Event::Statuses(answer) && answer is Ok,
        0 <= i < state.count,
        state.entries[i].1 is None,
        status_for(state, event, i) matches Some(status) ==> status.err is None && !reaches(
            status.confirmations,
            status.confirmation_status,
            state.level.commitment,
        ),
    ensures
        state.next(event).1 matches ActionView::Resend { positions, .. } && positions.contains(i),
{
    let after = state.next(event).0.entries;
    open_positions_are_exact(after);
    assert(after[i].1 is None);
    assert(open_positions(after).contains(i));
}

/// A transaction that a node reports as failed, or as confirmed to the commitment
/// asked for, is not sent again in that round of the retry loop.
pub proof fn confirmed_transaction_is_not_resent<E, C>(
    state: SessionState<E>,
    event: Event<E, C>,
    i: int,
)
    requires
        state.wf(),
        state.phase == Phase::RetryStatuses,
        state.expects(event),
        0 <= i < state.count,
        status_for(state, event, i) matches Some(status) && (status.err is Some || reaches(
            status.confirmations,
            status.confirmation_status,
            state.level.commitment,
        )),
    ensures
        state.next(event).0.entries[i].1 == verdict(
            status_for(state, event, i)->0,
            state.level.commitment,
        ),
        state.next(event).0.entries[i].1 is Some,
        match state.next(event).1 {
            ActionView::Resend { mode, positions } => !positions.contains(i),
            _ => true,
        },
{
    open_positions_are_exact(state.next(event).0.entries);
}

/// A transaction that has a result in the retry loop is never sent again, however
/// many rounds follow.
pub proof fn settled_transaction_is_not_sent_again<E, C>(
    state: SessionState<E>,
    events: Seq<Event<E, C>>,
    event: Event<E, C>,
    i: int,
)
    requires
        state.wf(),
        state.phase != Phase::Sending,
        state.phase != Phase::Failed,
        0 <= i < state.count,
        state.entries[i].1 is Some,
        follows(state, events),
        run(state, events).expects(event),
    ensures
        past_retry_loop(run(state, events).phase) || run(state, events).entries[i]
            == state.entries[i],
        !(run(state, events).next(event).1 is SendAll),
        match run(state, events).next(event).1 {
            ActionView::Resend { mode, positions } => !positions.contains(i),
            _ => true,
        },
    decreases events.len(),
{
    if events.len() > 0 {
        settled_transaction_is_not_sent_again(state, events.drop_last(), events.last(), i);
        sending_is_first(state, events);
    }
    run_keeps_wf(state, events);
    run_keeps_count(state, events);
    open_positions_are_exact(run(state, events).next(event).0.entries);
}

/// Where all preflights are skipped, no sending of the session simulates: neither
/// the first nor any later one.
pub proof fn skipped_preflights_stay_skipped<E, C>(
    start: SessionState<E>,
    events: Seq<Event<E, C>>,
    event: Event<E, C>,
)
    requires
        start.wf(),
        start.phase == Phase::Sending,
        follows(start, events),
        run(start, events).expects(event),
    ensures
        first_send_mode(true) == SendMode::NoRetryNoPreflight,
        match run(start, events).next(event).1 {
            ActionView::Resend { mode, positions } => mode == SendMode::NoRetryNoPreflight,
            ActionView::SendAll(_) => false,
            _ => true,
        },
{
}

/// A session without a retry loop comes to an end: with `n` attempts it fetches
/// statuses exactly `n` times, unless all results are known before or a request fails,
/// and takes in at most one event and two more for each attempt.
pub proof fn plain_session_ends<E, C>(start: SessionState<E>, events: Seq<Event<E, C>>)
    requires
        start.wf(),
        start.phase == Phase::Sending,
        start.plan is None,
        follows(start, events),
    ensures
        fetches(events) <= start.attempts_left,
        run(start, events).confirming() ==> fetches(events) + run(start, events).attempts_left
            == start.attempts_left,
        run(start, events).phase == Phase::Done ==> fetches(events) == start.attempts_left
            || open_positions(run(start, events).entries).len() == 0,
        events.len() + events_left(run(start, events)) <= 1 + 2 * start.attempts_left,
        events.len() > 0 ==> run(start, events).confirming() || run(start, events).phase
            == Phase::Done || run(start, events).phase == Phase::Failed,
    decreases events.len(),
{
    if events.len() > 0 {
        plain_session_ends(start, events.drop_last());
        run_keeps_wf(start, events.drop_last());
        run_keeps_count(start, events.drop_last());
    }
    run_keeps_wf(start, events);
}

/// A round of the retry loop begins only before the timeout, and sends only after
/// the blockhash was found valid in that same round.
pub proof fn round_is_timely<E, C>(
    state: SessionState<E>,
    clock: Event<E, C>,
    blockhash: Event<E, C>,
    statuses: Event<E, C>,
)
    requires
        state.wf(),
        state.phase == Phase::RetryClock,
        state.expects(clock),
        state.next(clock).0.expects(blockhash),
        state.next(clock).0.next(blockhash).0.expects(statuses),
        state.next(clock).0.next(blockhash).0.next(statuses).1 is Resend,
    ensures
        clock matches Event::Elapsed(elapsed_ns) && elapsed_ns < state.plan->0.timeout_ns,
        state.next(clock).1 == ActionView::<C>::CheckBlockhash(state.plan->0.blockhash),
        blockhash matches Event::BlockhashValid(answer) && answer == Ok::<bool, C>(true),
{
}

/// Once the retry loop is over, because the timeout has passed, the blockhash is
/// no longer valid or nothing is left to send, nothing is ever sent again.
pub proof fn nothing_is_sent_after_retry_loop<E, C>(
    state: SessionState<E>,
    events: Seq<Event<E, C>>,
    event: Event<E, C>,
)
    requires
        state.wf(),
        past_retry_loop(state.phase),
        follows(state, events),
        run(state, events).expects(event),
    ensures
        past_retry_loop(run(state, events).phase),
        past_retry_loop(run(state, events).next(event).0.phase),
        !(run(state, events).next(event).1 is Resend),
        !(run(state, events).next(event).1 is SendAll),
        !(run(state, events).next(event).1 is CheckBlockhash),
    decreases events.len(),
{
    if events.len() > 0 {
        nothing_is_sent_after_retry_loop(state, events.drop_last(), events.last());
    }
}

/// The retry loop ends for three reasons only: the timeout has passed, the blockhash
/// is no longer valid, or every transaction has a result.
pub proof fn retry_loop_ends_for_a_reason<E, C>(state: SessionState<E>, event: Event<E, C>)
    requires
        state.wf(),
        state.expects(event),
        state.next(event).0.phase == Phase::DeadlineClock,
    ensures
        match event {
            Event::Elapsed(elapsed_ns) => elapsed_ns >= state.plan->0.timeout_ns,
            Event::BlockhashValid(answer) => answer == Ok::<bool, C>(false),
            Event::Statuses(_) => forall|i: int|
                0 <= i < state.count ==> (#[trigger] state.next(event).0.entries[i]).1 is Some,
            _ => false,
        },
{
    let after = state.next(event).0;
    open_positions_are_exact(after.entries);
    if event is Statuses {
        assert forall|i: int| 0 <= i < state.count implies (#[trigger] after.entries[i]).1 is Some by {
            assert(!open_positions(after.entries).contains(i));
        }
    }
}

/// Late or without a valid blockhash, the retry loop ends.
pub proof fn retry_loop_ends_when_late_or_invalid<E, C>(state: SessionState<E>, event: Event<E, C>)
    requires
        state.wf(),
        state.expects(event),
        match event {
            Event::Elapsed(elapsed_ns) => (state.phase == Phase::RetryClock || state.phase
                == Phase::RetryPauseClock) && elapsed_ns >= state.plan->0.timeout_ns,
            Event::BlockhashValid(answer) => answer == Ok::<bool, C>(false),
            _ => false,
        },
    ensures
        state.next(event).0.phase == Phase::DeadlineClock,
        state.next(event).0.entries == state.entries,
        state.next(event).1 == ActionView::<C>::ReadClock,
{
}

/// How long the session has its driver wait in all, in nanoseconds, in answer to
/// `events`.
pub open spec fn slept<E, C>(state: SessionState<E>, events: Seq<Event<E, C>>) -> int
    decreases events.len(),
{
    if events.len() == 0 {
        0
    } else {
        let earlier = events.drop_last();
        slept(state, earlier) + match run(state, earlier).next(events.last()).1 {
            ActionView::Sleep(pause_ns) => pause_ns as int,
            _ => 0,
        }
    }
}

/// Whether the clock counts the pauses: each reading is at least the sum of the
/// pauses before it.
pub open spec fn clock_counts_pauses<E, C>(state: SessionState<E>, events: Seq<Event<E, C>>) -> bool
    decreases events.len(),
{
    events.len() > 0 ==> {
        &&& clock_counts_pauses(state, events.drop_last())
        &&& events.last() matches Event::Elapsed(elapsed_ns) ==> elapsed_ns >= slept(
            state,
            events.drop_last(),
        )
    }
}

/// The timeout is the longest time to wait: the pauses of a session with a retry
/// loop, all together, never come to more than it.
pub proof fn pauses_fit_in_timeout<E, C>(start: SessionState<E>, events: Seq<Event<E, C>>)
    requires
        start.wf(),
        start.phase == Phase::Sending,
        start.plan is Some,
        follows(start, events),
        clock_counts_pauses(start, events),
    ensures
        slept(start, events) <= start.plan->0.timeout_ns,
        run(start, events).phase == Phase::AttemptCount ==> slept(start, events) + run(
            start,
            events,
        ).time_left_ns <= start.plan->0.timeout_ns,
    decreases events.len(),
{
    if events.len() > 0 {
        pauses_fit_in_timeout(start, events.drop_last());
        run_keeps_wf(start, events.drop_last());
        run_keeps_count(start, events.drop_last());
    }
}

/// A pause that follows a look at the clock is over by the timeout.
pub proof fn pause_ends_by_timeout<E, C>(
    state: SessionState<E>,
    elapsed_ns: u128,
    pause_ns: u128,
)
    requires
        state.wf(),
        state.expects(Event::<E, C>::Elapsed(elapsed_ns)),
        state.next(Event::<E, C>::Elapsed(elapsed_ns)).1 == ActionView::<C>::Sleep(pause_ns),
    ensures
        pause_ns <= time_left(state.plan->0.timeout_ns, elapsed_ns),
        elapsed_ns + pause_ns <= state.plan->0.timeout_ns,
{
}

/// Without time to wait a session with a retry loop never pauses.
pub proof fn no_time_means_no_pause<E, C>(
    start: SessionState<E>,
    events: Seq<Event<E, C>>,
    event: Event<E, C>,
)
    requires
        start.wf(),
        start.phase == Phase::Sending,
        start.plan is Some,
        start.plan->0.timeout_ns == 0,
        follows(start, events),
        run(start, events).expects(event),
    ensures
        !(run(start, events).next(event).1 is Sleep),
{
    run_keeps_wf(start, events);
    run_keeps_count(start, events);
}

} // verus!
