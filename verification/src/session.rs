//! Sending a group of transactions and following them until they are confirmed.
//!
//! A [`Session`] decides, its driver acts: the driver performs the [`Action`] that
//! it was given last, hands the outcome back as an [`Event`], and gets the next
//! action, until that is [`Action::Finish`] or [`Action::Fail`].
use vstd::prelude::*;

use crate::errors::ErrorKind;
use crate::status::{
    get_remaining_signatures_to_confirm, record_statuses, Entry, TransactionStatus,
};
use crate::types::{Blockhash, CommitmentConfig, Signature};
#[allow(unused_imports)]
use crate::status::{open_positions, open_signatures, settled, signatures_of, unsettled};

verus! {

/// How long to wait, in milliseconds.
#[derive(Clone, Copy, Debug, PartialEq, Eq, Structural)]
pub struct Pacing {
    /// The time a group of transactions gets when its sender names none.
    pub max_timeout_tx_send_ms: u64,
    /// The pause between two rounds of sending.
    pub delay_ms_between_tx_send_retry: u64,
    /// The pause before a status is fetched to confirm a transaction.
    pub default_status_fetch_delay_ms: u64,
}

/// What a local retry loop needs to know.
#[derive(Clone, Copy, Debug, PartialEq, Eq)]
pub struct RetryPlan {
    /// The blockhash under which all transactions of the group were made.
    pub blockhash: Blockhash,
    /// The longest time to wait, in nanoseconds from the start.
    pub timeout_ns: u128,
}

/// The ways to send a transaction.
#[derive(Clone, Copy, Debug, PartialEq, Eq, Structural)]
pub enum SendMode {
    /// Simulate first; the node that takes the transaction retries.
    NodeRetries,
    /// Simulate first; the node does not retry.
    NoRetry,
    /// Do not simulate; the node does not retry.
    NoRetryNoPreflight,
}

/// What a session waits for.
#[derive(Clone, Copy, Debug, PartialEq, Eq, Structural)]
pub enum Phase {
    /// The first sending of all transactions.
    Sending,
    /// The time, to see whether another round may begin.
    RetryClock,
    /// Whether the blockhash is still valid.
    RetryBlockhash,
    /// The statuses of the transactions that have no result yet.
    RetryStatuses,
    /// The sending, once more, of the transactions that have no result.
    RetryResend,
    /// The time, to see how long the pause between two rounds may be.
    RetryPauseClock,
    /// The pause between two rounds.
    RetryPause,
    /// The time, to see how much is left for confirming.
    DeadlineClock,
    /// The number of attempts that fit in the time left.
    AttemptCount,
    /// The time, to see how long the pause before another attempt may be.
    ConfirmClock,
    /// The pause before an attempt to confirm.
    ConfirmPause,
    /// The statuses of the transactions that are not confirmed yet.
    ConfirmStatuses,
    /// Nothing: the results are known.
    Done,
    /// Nothing: a request failed.
    Failed,
}

/// What happened. `C` is the error with which a request to the client can fail.
#[derive(Debug)]
pub enum Event<E, C> {
    /// Each transaction was sent once; in order, what came of it.
    Sent(Vec<Result<Signature, C>>),
    /// So many nanoseconds have passed since the start.
    Elapsed(u128),
    /// The client says whether the blockhash is valid.
    BlockhashValid(Result<bool, C>),
    /// The client has statuses for the signatures asked for, in order.
    Statuses(Result<Vec<Option<TransactionStatus<E>>>, C>),
    /// The transactions were sent once more, whatever came of it.
    Resent,
    /// The pause is over.
    Slept,
    /// So many attempts to confirm fit in the time asked about.
    Attempts(usize),
}

/// What the driver has to do next.
#[derive(Debug, PartialEq, Eq)]
pub enum Action<C> {
    /// Send each transaction once.
    SendAll(SendMode),
    /// Say how much time has passed since the start.
    ReadClock,
    /// Ask whether this blockhash is valid.
    CheckBlockhash(Blockhash),
    /// Ask for the statuses of these signatures.
    FetchStatuses(Vec<Signature>),
    /// Send the transactions at these positions once more.
    Resend { mode: SendMode, positions: Vec<usize> },
    /// Wait so many nanoseconds.
    Sleep(u128),
    /// Say how many attempts to confirm fit in so many milliseconds.
    CountAttempts { timeout_ms: u64 },
    /// Stop: the session holds the results.
    Finish,
    /// Stop: a request failed with this error.
    Fail(C),
}

/// An action, as mathematical values.
#[verifier::ext_equal]
pub enum ActionView<C> {
    SendAll(SendMode),
    ReadClock,
    CheckBlockhash(Blockhash),
    FetchStatuses(Seq<Signature>),
    Resend { mode: SendMode, positions: Seq<int> },
    Sleep(u128),
    CountAttempts { timeout_ms: u64 },
    Finish,
    Fail(C),
}

impl<C> View for Action<C> {
    type V = ActionView<C>;

    open spec fn view(&self) -> ActionView<C> {
        match *self {
            Action::SendAll(mode) => ActionView::SendAll(mode),
            Action::ReadClock => ActionView::ReadClock,
            Action::CheckBlockhash(blockhash) => ActionView::CheckBlockhash(blockhash),
            Action::FetchStatuses(signatures) => ActionView::FetchStatuses(signatures@),
            Action::Resend { mode, positions } => ActionView::Resend {
                mode,
                positions: positions@.map_values(|position: usize| position as int),
            },
            Action::Sleep(pause_ns) => ActionView::Sleep(pause_ns),
            Action::CountAttempts { timeout_ms } => ActionView::CountAttempts { timeout_ms },
            Action::Finish => ActionView::Finish,
            Action::Fail(error) => ActionView::Fail(error),
        }
    }
}

/// The state of a session, as mathematical values.
#[verifier::ext_equal]
pub struct SessionState<E> {
    pub phase: Phase,
    /// `None` where the transactions are not retried locally.
    pub plan: Option<RetryPlan>,
    pub pacing: Pacing,
    /// The commitment at which the transactions are confirmed.
    pub level: CommitmentConfig,
    /// How many transactions there are.
    pub count: nat,
    /// One entry for each transaction, in order, once they were sent.
    pub entries: Seq<Entry<E>>,
    /// How many attempts to confirm are left.
    pub attempts_left: nat,
    /// How much time was left, in nanoseconds, when the retry loop was over.
    pub time_left_ns: u128,
}

/// The values of a list of results, or the first error among them.
pub open spec fn collected<T, C>(results: Seq<Result<T, C>>) -> Result<Seq<T>, C>
    decreases results.len(),
{
    if results.len() == 0 {
        Ok(Seq::empty())
    } else {
        match collected(results.drop_last()) {
            Err(error) => Err(error),
            Ok(values) => match results.last() {
                Ok(value) => Ok(values.push(value)),
                Err(error) => Err(error),
            },
        }
    }
}

/// The time between `elapsed_ns` and `timeout_ns`; none once the timeout has passed.
pub open spec fn time_left(timeout_ns: u128, elapsed_ns: u128) -> u128 {
    if elapsed_ns < timeout_ns {
        (timeout_ns - elapsed_ns) as u128
    } else {
        0
    }
}

/// A pause of `delay_ms` milliseconds, in nanoseconds.
pub open spec fn full_pause(delay_ms: u64) -> u128 {
    (delay_ms * 1_000_000) as u128
}

/// A pause of `delay_ms` milliseconds, in nanoseconds, cut to the time left.
pub open spec fn cut_pause(delay_ms: u64, left_ns: u128) -> u128 {
    if full_pause(delay_ms) <= left_ns {
        full_pause(delay_ms)
    } else {
        left_ns
    }
}

impl<E> SessionState<E> {
    /// A session that is about to send `count` transactions.
    pub open spec fn starting(
        count: nat,
        plan: Option<RetryPlan>,
        attempts: nat,
        level: CommitmentConfig,
        pacing: Pacing,
    ) -> Self {
        SessionState {
            phase: Phase::Sending,
            plan,
            pacing,
            level,
            count,
            entries: Seq::empty(),
            attempts_left: attempts,
            time_left_ns: 0,
        }
    }

    /// Whether the state is one that a session can be in.
    pub open spec fn wf(self) -> bool {
        &&& self.phase != Phase::Sending && self.phase != Phase::Failed ==> self.entries.len()
            == self.count
        &&& self.retrying() ==> self.plan is Some
        &&& self.plan is Some ==> self.count > 0 && self.time_left_ns <= self.plan->0.timeout_ns
        &&& self.phase == Phase::ConfirmClock ==> self.plan is Some
        &&& self.phase == Phase::AttemptCount ==> forall|i: int|
            0 <= i < self.entries.len() ==> (#[trigger] self.entries[i]).1 is None
        &&& self.confirming() ==> self.attempts_left > 0 && open_positions(self.entries).len() > 0
    }

    /// Whether the session is still in its retry loop, or has just left it.
    pub open spec fn retrying(self) -> bool {
        match self.phase {
            Phase::RetryClock
            | Phase::RetryBlockhash
            | Phase::RetryStatuses
            | Phase::RetryResend
            | Phase::RetryPauseClock
            | Phase::RetryPause
            | Phase::DeadlineClock
            | Phase::AttemptCount => true,
            _ => false,
        }
    }

    /// Whether an attempt to confirm is under way.
    pub open spec fn confirming(self) -> bool {
        match self.phase {
            Phase::ConfirmClock | Phase::ConfirmPause | Phase::ConfirmStatuses => true,
            _ => false,
        }
    }

    /// Whether `event` is what the session waits for.
    pub open spec fn expects<C>(self, event: Event<E, C>) -> bool {
        match self.phase {
            Phase::Sending => event matches Event::Sent(results) && results@.len() == self.count,
            Phase::RetryClock | Phase::RetryPauseClock | Phase::ConfirmClock => event is Elapsed,
            Phase::RetryBlockhash => event is BlockhashValid,
            Phase::RetryStatuses | Phase::ConfirmStatuses => event is Statuses,
            Phase::RetryResend => event is Resent,
            Phase::RetryPause | Phase::ConfirmPause => event is Slept,
            Phase::DeadlineClock => event matches Event::Elapsed(elapsed_ns) && time_left(
                self.plan->0.timeout_ns,
                elapsed_ns,
            ) / 1_000_000 <= u64::MAX,
            Phase::AttemptCount => event is Attempts,
            Phase::Done | Phase::Failed => false,
        }
    }

    /// The same state in another phase.
    pub open spec fn at(self, phase: Phase) -> Self {
        SessionState { phase, ..self }
    }

    /// The retry loop is over: what is left is to confirm, in the time left.
    pub open spec fn leave_retry_loop<C>(self) -> (Self, ActionView<C>) {
        (self.at(Phase::DeadlineClock), ActionView::ReadClock)
    }

    /// What follows a look at the results: the end, if no attempt is left or no
    /// transaction needs one; else the pause before the next attempt, or, where the
    /// time is limited, a look at the clock before that pause.
    pub open spec fn begin_attempt<C>(self) -> (Self, ActionView<C>) {
        if self.attempts_left == 0 || open_positions(self.entries).len() == 0 {
            (self.at(Phase::Done), ActionView::Finish)
        } else if self.plan is Some {
            (self.at(Phase::ConfirmClock), ActionView::ReadClock)
        } else {
            (
                self.at(Phase::ConfirmPause),
                ActionView::Sleep(full_pause(self.pacing.default_status_fetch_delay_ms)),
            )
        }
    }

    /// The first attempt to confirm a group that was retried: after a pause, if there
    /// is time for one, else at once.
    pub open spec fn begin_first_attempt<C>(self) -> (Self, ActionView<C>) {
        if self.time_left_ns > 0 {
            (
                self.at(Phase::ConfirmPause),
                ActionView::Sleep(
                    cut_pause(self.pacing.default_status_fetch_delay_ms, self.time_left_ns),
                ),
            )
        } else {
            (
                self.at(Phase::ConfirmStatuses),
                ActionView::FetchStatuses(open_signatures(self.entries)),
            )
        }
    }

    /// The state after a look at the clock, and the action that it calls for.
    pub open spec fn next_at<C>(self, elapsed_ns: u128) -> (Self, ActionView<C>) {
        let left_ns = time_left(self.plan->0.timeout_ns, elapsed_ns);
        match self.phase {
            Phase::RetryClock => if left_ns > 0 {
                (
                    self.at(Phase::RetryBlockhash),
                    ActionView::CheckBlockhash(self.plan->0.blockhash),
                )
            } else {
                self.leave_retry_loop()
            },
            Phase::RetryPauseClock => if left_ns > 0 {
                (
                    self.at(Phase::RetryPause),
                    ActionView::Sleep(
                        cut_pause(self.pacing.delay_ms_between_tx_send_retry, left_ns),
                    ),
                )
            } else {
                self.leave_retry_loop()
            },
            Phase::ConfirmClock => if left_ns > 0 {
                (
                    self.at(Phase::ConfirmPause),
                    ActionView::Sleep(
                        cut_pause(self.pacing.default_status_fetch_delay_ms, left_ns),
                    ),
                )
            } else {
                (self.at(Phase::Done), ActionView::Finish)
            },
            _ => (
                SessionState {
                    phase: Phase::AttemptCount,
                    entries: unsettled(signatures_of(self.entries)),
                    time_left_ns: left_ns,
                    ..self
                },
                ActionView::CountAttempts { timeout_ms: (left_ns / 1_000_000) as u64 },
            ),
        }
    }

    /// The state after `event`, and the action that it calls for.
    pub open spec fn next<C>(self, event: Event<E, C>) -> (Self, ActionView<C>) {
        match event {
            Event::Sent(results) => match collected(results@) {
                Err(error) => (self.at(Phase::Failed), ActionView::Fail(error)),
                Ok(signatures) => {
                    let sent = SessionState { entries: unsettled(signatures), ..self };
                    if self.plan is Some {
                        (sent.at(Phase::RetryClock), ActionView::ReadClock)
                    } else {
                        sent.begin_attempt()
                    }
                },
            },
            Event::Elapsed(elapsed_ns) => self.next_at(elapsed_ns),
            Event::BlockhashValid(Err(error)) => (
                self.at(Phase::Failed),
                ActionView::Fail(error),
            ),
            Event::BlockhashValid(Ok(valid)) => if valid {
                (
                    self.at(Phase::RetryStatuses),
                    ActionView::FetchStatuses(open_signatures(self.entries)),
                )
            } else {
                self.leave_retry_loop()
            },
            Event::Statuses(Err(error)) => (self.at(Phase::Failed), ActionView::Fail(error)),
            Event::Statuses(Ok(statuses)) => if self.phase == Phase::RetryStatuses {
                let entries = settled(self.entries, statuses@, self.level.commitment);
                let told = SessionState { entries, ..self };
                if open_positions(entries).len() == 0 {
                    told.leave_retry_loop()
                } else {
                    (
                        told.at(Phase::RetryResend),
                        ActionView::Resend {
                            mode: SendMode::NoRetryNoPreflight,
                            positions: open_positions(entries),
                        },
                    )
                }
            } else {
                SessionState {
                    entries: settled(self.entries, statuses@, self.level.commitment),
                    attempts_left: (self.attempts_left - 1) as nat,
                    ..self
                }.begin_attempt()
            },
            Event::Resent => (self.at(Phase::RetryPauseClock), ActionView::ReadClock),
            Event::Slept => if self.phase == Phase::RetryPause {
                (self.at(Phase::RetryClock), ActionView::ReadClock)
            } else {
                (
                    self.at(Phase::ConfirmStatuses),
                    ActionView::FetchStatuses(open_signatures(self.entries)),
                )
            },
            Event::Attempts(attempts) => SessionState {
                attempts_left: if attempts > 1 {
                    attempts as nat
                } else {
                    1
                },
                ..self
            }.begin_first_attempt(),
        }
    }
}

/// The sending of a group of transactions, and what is known of them.
#[derive(Debug)]
pub struct Session<E> {
    phase: Phase,
    plan: Option<RetryPlan>,
    pacing: Pacing,
    level: CommitmentConfig,
    count: usize,
    entries: Vec<Entry<E>>,
    attempts_left: usize,
    time_left_ns: u128,
}

impl<E> View for Session<E> {
    type V = SessionState<E>;

    closed spec fn view(&self) -> SessionState<E> {
        SessionState {
            phase: self.phase,
            plan: self.plan,
            pacing: self.pacing,
            level: self.level,
            count: self.count as nat,
            entries: self.entries@,
            attempts_left: self.attempts_left as nat,
            time_left_ns: self.time_left_ns,
        }
    }
}

impl<E> Session<E> {
    /// Starts to send `count` transactions, which the nodes retry, and to confirm
    /// them with at most `nb_attempts` attempts.
    pub fn send_and_confirm<C>(
        count: usize,
        level: CommitmentConfig,
        nb_attempts: usize,
        pacing: Pacing,
    ) -> (started: (Self, Action<C>))
        ensures
            started.0@ == SessionState::<E>::starting(
                count as nat,
                None,
                nb_attempts as nat,
                level,
                pacing,
            ),
            started.0@.wf(),
            started.1@ == ActionView::<C>::SendAll(SendMode::NodeRetries),
    {
        let session = Session {
            phase: Phase::Sending,
            plan: None,
            pacing,
            level,
            count,
            entries: Vec::new(),
            attempts_left: nb_attempts,
            time_left_ns: 0,
        };
        (session, Action::SendAll(SendMode::NodeRetries))
    }

    /// Starts to send transactions with a local retry loop and to confirm them.
    /// `recent_blockhashes` has the blockhash of each transaction; the first stands
    /// for all of them. Without a `timeout_ns` the default timeout holds.
    pub fn send_retry_and_confirm<C>(
        recent_blockhashes: &Vec<Blockhash>,
        timeout_ns: Option<u128>,
        skip_all_preflights: bool,
        level: CommitmentConfig,
        pacing: Pacing,
    ) -> (started: Result<(Self, Action<C>), ErrorKind>)
        ensures
            match started {
                Err(error) => {
                    &&& recent_blockhashes@.len() == 0
                    &&& error == ErrorKind::NoTransactions
                },
                Ok((session, action)) => {
                    &&& recent_blockhashes@.len() > 0
                    &&& session@ == SessionState::<E>::starting(
                        recent_blockhashes@.len(),
                        Some(retry_plan(recent_blockhashes@[0], timeout_ns, pacing)),
                        0,
                        level,
                        pacing,
                    )
                    &&& session@.wf()
                    &&& action@ == ActionView::<C>::SendAll(first_send_mode(skip_all_preflights))
                },
            },
    {
        if recent_blockhashes.len() == 0 {
            return Err(ErrorKind::NoTransactions);
        }
        Ok(
            Session::retry_and_confirm(
                recent_blockhashes.len(),
                recent_blockhashes[0],
                timeout_ns,
                skip_all_preflights,
                level,
                pacing,
            ),
        )
    }

    /// Starts to send `count` transactions, all made under `blockhash`, with a local
    /// retry loop and to confirm them.
    pub fn retry_and_confirm<C>(
        count: usize,
        blockhash: Blockhash,
        timeout_ns: Option<u128>,
        skip_all_preflights: bool,
        level: CommitmentConfig,
        pacing: Pacing,
    ) -> (started: (Self, Action<C>))
        requires
            count > 0,
        ensures
            started.0@ == SessionState::<E>::starting(
                count as nat,
                Some(retry_plan(blockhash, timeout_ns, pacing)),
                0,
                level,
                pacing,
            ),
            started.0@.wf(),
            started.1@ == ActionView::<C>::SendAll(first_send_mode(skip_all_preflights)),
    {
        let timeout_ns: u128 = match timeout_ns {
            Some(timeout_ns) => timeout_ns,
            None => pacing.max_timeout_tx_send_ms as u128 * 1_000_000,
        };
        let session = Session {
            phase: Phase::Sending,
            plan: Some(RetryPlan { blockhash, timeout_ns }),
            pacing,
            level,
            count,
            entries: Vec::new(),
            attempts_left: 0,
            time_left_ns: 0,
        };
        let mode = if skip_all_preflights {
            SendMode::NoRetryNoPreflight
        } else {
            SendMode::NoRetry
        };
        (session, Action::SendAll(mode))
    }

    /// Takes in what happened and says what to do next.
    pub fn step<C>(&mut self, event: Event<E, C>) -> (action: Action<C>)
        requires
            old(self)@.wf(),
            old(self)@.expects(event),
        ensures
            final(self)@.wf(),
            (final(self)@, action@) == old(self)@.next(event),
    {
        match event {
            Event::Sent(results) => {
                proof {
                    lemma_collected_len(results@);
                }
                match collect_results(results) {
                    Err(error) => {
                        self.phase = Phase::Failed;
                        Action::Fail(error)
                    },
                    Ok(signatures) => {
                        self.entries = unsettled_entries(&signatures);
                        if self.plan.is_some() {
                            self.phase = Phase::RetryClock;
                            Action::ReadClock
                        } else {
                            self.begin_attempt()
                        }
                    },
                }
            },
            Event::Elapsed(elapsed_ns) => {
                self.step_at(elapsed_ns)
            },
            Event::BlockhashValid(Err(error)) => {
                self.phase = Phase::Failed;
                Action::Fail(error)
            },
            Event::BlockhashValid(Ok(valid)) => {
                if valid {
                    self.phase = Phase::RetryStatuses;
                    let (signatures, _) = get_remaining_signatures_to_confirm(&self.entries);
                    Action::FetchStatuses(signatures)
                } else {
                    self.leave_retry_loop()
                }
            },
            Event::Statuses(Err(error)) => {
                self.phase = Phase::Failed;
                Action::Fail(error)
            },
            Event::Statuses(Ok(statuses)) => {
                if self.phase == Phase::RetryStatuses {
                    record_statuses(&mut self.entries, statuses, self.level);
                    let (_, positions) = get_remaining_signatures_to_confirm(&self.entries);
                    proof {
                        assert(positions@.map_values(|position: usize| position as int).len()
                            == positions@.len());
                    }
                    if positions.len() == 0 {
                        self.leave_retry_loop()
                    } else {
                        self.phase = Phase::RetryResend;
                        Action::Resend { mode: SendMode::NoRetryNoPreflight, positions }
                    }
                } else {
                    record_statuses(&mut self.entries, statuses, self.level);
                    self.attempts_left = self.attempts_left - 1;
                    self.begin_attempt()
                }
            },
            Event::Resent => {
                self.phase = Phase::RetryPauseClock;
                Action::ReadClock
            },
            Event::Slept => {
                if self.phase == Phase::RetryPause {
                    self.phase = Phase::RetryClock;
                    Action::ReadClock
                } else {
                    self.phase = Phase::ConfirmStatuses;
                    let (signatures, _) = get_remaining_signatures_to_confirm(&self.entries);
                    Action::FetchStatuses(signatures)
                }
            },
            Event::Attempts(attempts) => {
                self.attempts_left = if attempts > 1 {
                    attempts
                } else {
                    1
                };
                self.begin_first_attempt()
            },
        }
    }

    /// Takes in the time that has passed.
    fn step_at<C>(&mut self, elapsed_ns: u128) -> (action: Action<C>)
        requires
            old(self)@.wf(),
            old(self)@.expects(Event::<E, C>::Elapsed(elapsed_ns)),
        ensures
            final(self)@.wf(),
            (final(self)@, action@) == old(self)@.next_at::<C>(elapsed_ns),
    {
        let plan = self.plan.unwrap();
        let left_ns: u128 = if elapsed_ns < plan.timeout_ns {
            plan.timeout_ns - elapsed_ns
        } else {
            0
        };
        match self.phase {
            Phase::RetryClock => if left_ns > 0 {
                self.phase = Phase::RetryBlockhash;
                Action::CheckBlockhash(plan.blockhash)
            } else {
                self.leave_retry_loop()
            },
            Phase::RetryPauseClock => if left_ns > 0 {
                self.phase = Phase::RetryPause;
                Action::Sleep(cut_to(self.pacing.delay_ms_between_tx_send_retry, left_ns))
            } else {
                self.leave_retry_loop()
            },
            Phase::ConfirmClock => if left_ns > 0 {
                self.phase = Phase::ConfirmPause;
                Action::Sleep(cut_to(self.pacing.default_status_fetch_delay_ms, left_ns))
            } else {
                self.phase = Phase::Done;
                Action::Finish
            },
            _ => {
                self.reset_results();
                self.phase = Phase::AttemptCount;
                self.time_left_ns = left_ns;
                Action::CountAttempts { timeout_ms: (left_ns / 1_000_000) as u64 }
            },
        }
    }

    /// The retry loop is over.
    fn leave_retry_loop<C>(&mut self) -> (action: Action<C>)
        requires
            old(self)@.plan is Some,
            old(self)@.count > 0,
            old(self)@.time_left_ns <= old(self)@.plan->0.timeout_ns,
            old(self)@.entries.len() == old(self)@.count,
        ensures
            final(self)@.wf(),
            (final(self)@, action@) == old(self)@.leave_retry_loop::<C>(),
    {
        self.phase = Phase::DeadlineClock;
        Action::ReadClock
    }

    /// Begins another attempt to confirm, if one is left and a transaction needs it.
    fn begin_attempt<C>(&mut self) -> (action: Action<C>)
        requires
            old(self)@.plan is Some ==> old(self)@.count > 0 && old(self)@.time_left_ns <= old(
                self,
            )@.plan->0.timeout_ns,
            old(self)@.entries.len() == old(self)@.count,
        ensures
            final(self)@.wf(),
            (final(self)@, action@) == old(self)@.begin_attempt::<C>(),
    {
        let (remaining_signatures, _) = get_remaining_signatures_to_confirm(&self.entries);
        if self.attempts_left == 0 || remaining_signatures.len() == 0 {
            self.phase = Phase::Done;
            Action::Finish
        } else if self.plan.is_some() {
            self.phase = Phase::ConfirmClock;
            Action::ReadClock
        } else {
            self.phase = Phase::ConfirmPause;
            Action::Sleep(self.pacing.default_status_fetch_delay_ms as u128 * 1_000_000)
        }
    }

    /// Begins the first attempt to confirm a group that was retried.
    fn begin_first_attempt<C>(&mut self) -> (action: Action<C>)
        requires
            old(self)@.plan is Some,
            old(self)@.count > 0,
            old(self)@.time_left_ns <= old(self)@.plan->0.timeout_ns,
            old(self)@.entries.len() == old(self)@.count,
            old(self)@.attempts_left > 0,
            open_positions(old(self)@.entries).len() > 0,
        ensures
            final(self)@.wf(),
            (final(self)@, action@) == old(self)@.begin_first_attempt::<C>(),
    {
        if self.time_left_ns > 0 {
            self.phase = Phase::ConfirmPause;
            Action::Sleep(cut_to(self.pacing.default_status_fetch_delay_ms, self.time_left_ns))
        } else {
            self.phase = Phase::ConfirmStatuses;
            let (signatures, _) = get_remaining_signatures_to_confirm(&self.entries);
            Action::FetchStatuses(signatures)
        }
    }

    /// Forgets all results, to fetch them anew.
    fn reset_results(&mut self)
        ensures
            final(self)@ == (SessionState {
                entries: unsettled(signatures_of(old(self)@.entries)),
                ..old(self)@
            }),
    {
        let mut signatures: Vec<Signature> = Vec::new();
        for i in 0..self.entries.len()
            invariant
                signatures@ == signatures_of(self.entries@).take(i as int),
        {
            signatures.push(self.entries[i].0);
        }
        assert(signatures@ == signatures_of(self.entries@));
        self.entries = unsettled_entries(&signatures);
    }

    /// What the session waits for.
    pub fn phase(&self) -> (phase: Phase)
        ensures
            phase == self@.phase,
    {
        self.phase
    }

    /// The signature and the result of each transaction, in order. A result is
    /// `None` where the transaction was not confirmed.
    pub fn into_results(self) -> (results: Vec<Entry<E>>)
        ensures
            results@ == self@.entries,
    {
        self.entries
    }
}

/// The signature and the result of the one transaction that was sent.
pub fn single_result<E>(mut results: Vec<Entry<E>>) -> (result: Entry<E>)
    requires
        results@.len() > 0,
    ensures
        result == results@[0],
{
    results.swap_remove(0)
}

/// The plan of a retry loop: the blockhash, and the timeout or its default.
pub open spec fn retry_plan(
    blockhash: Blockhash,
    timeout_ns: Option<u128>,
    pacing: Pacing,
) -> RetryPlan {
    RetryPlan {
        blockhash,
        timeout_ns: match timeout_ns {
            Some(timeout_ns) => timeout_ns,
            None => (pacing.max_timeout_tx_send_ms * 1_000_000) as u128,
        },
    }
}

/// How the transactions of a retry loop are sent for the first time.
pub open spec fn first_send_mode(skip_all_preflights: bool) -> SendMode {
    if skip_all_preflights {
        SendMode::NoRetryNoPreflight
    } else {
        SendMode::NoRetry
    }
}

/// A pause of `delay_ms` milliseconds, in nanoseconds, cut to the time left.
fn cut_to(delay_ms: u64, left_ns: u128) -> (pause_ns: u128)
    ensures
        pause_ns == cut_pause(delay_ms, left_ns),
{
    let full_ns: u128 = delay_ms as u128 * 1_000_000;
    if full_ns <= left_ns {
        full_ns
    } else {
        left_ns
    }
}

/// Entries for `signatures`, none of them with a result.
fn unsettled_entries<E>(signatures: &Vec<Signature>) -> (entries: Vec<Entry<E>>)
    ensures
        entries@ == unsettled::<E>(signatures@),
{
    let mut entries: Vec<Entry<E>> = Vec::with_capacity(signatures.len());
    for i in 0..signatures.len()
        invariant
            entries@ == unsettled::<E>(signatures@.take(i as int)),
    {
        entries.push((signatures[i], None));
        assert(entries@ == unsettled::<E>(signatures@.take(i + 1)));
    }
    assert(signatures@.take(signatures@.len() as int) == signatures@);
    entries
}

/// A list of results without an error has as many values as results.
proof fn lemma_collected_len<T, C>(results: Seq<Result<T, C>>)
    ensures
        collected(results) matches Ok(values) ==> values.len() == results.len(),
    decreases results.len(),
{
    if results.len() > 0 {
        lemma_collected_len(results.drop_last());
    }
}

/// Collects a list of results into a list of values, or into the first error.
pub fn collect_results<T, C>(results: Vec<Result<T, C>>) -> (outcome: Result<Vec<T>, C>)
    ensures
        match collected(results@) {
            Ok(values) => outcome matches Ok(list) && list@ == values,
            Err(first) => outcome matches Err(error) && error == first,
        },
{
    let ghost all = results@;
    let mut values: Vec<T> = Vec::new();
    for result in it: results
        invariant
            it.seq() == all,
            collected(all.take(it.index() as int)) == Ok::<Seq<T>, C>(values@),
    {
        assert(all.take(it.index() + 1).drop_last() == all.take(it.index() as int));
        match result {
            Ok(value) => {
                values.push(value);
            },
            Err(error) => {
                proof {
                    lemma_first_error_stays(all, it.index() + 1);
                }
                return Err(error);
            },
        }
    }
    assert(all.take(all.len() as int) == all);
    Ok(values)
}

/// An error among the first results is the error of all of them.
proof fn lemma_first_error_stays<T, C>(results: Seq<Result<T, C>>, n: int)
    requires
        0 <= n <= results.len(),
        collected(results.take(n)) is Err,
    ensures
        collected(results) == collected(results.take(n)),
    decreases results.len(),
{
    if n == results.len() {
        assert(results.take(n) == results);
    } else {
        assert(results.drop_last().take(n) == results.take(n));
        lemma_first_error_stays(results.drop_last(), n);
    }
}

} // verus!
