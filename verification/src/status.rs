//! Transaction statuses, and what they settle about a group of transactions
//! that was sent.
use vstd::prelude::*;

use crate::types::{CommitmentConfig, CommitmentLevel, Signature};

verus! {

/// How settled the block of a transaction is, as a node reports it.
#[derive(Clone, Copy, Debug, PartialEq, Eq, Structural)]
pub enum TransactionConfirmationStatus {
    Processed,
    Confirmed,
    Finalized,
}

/// What a node reports of a transaction that it has seen. `E` is the error with
/// which a transaction can fail on chain.
#[derive(Debug, PartialEq, Eq)]
pub struct TransactionStatus<E> {
    /// Blocks built on top of the transaction's block; `None` once it is rooted.
    pub confirmations: Option<usize>,
    /// The error with which the transaction failed, if it did.
    pub err: Option<E>,
    /// The commitment that the transaction's block has reached; older nodes
    /// leave it out.
    pub confirmation_status: Option<TransactionConfirmationStatus>,
}

/// Transaction result: `Ok` if the transaction was successful, else the error
/// of the transaction.
pub type TransactionResult<E> = Result<(), E>;

/// A transaction that was sent: its signature, and its result as far as it is
/// known.
pub type Entry<E> = (Signature, Option<TransactionResult<E>>);

/// Whether a block with these confirmations and this reported status has reached
/// the commitment `level`.
pub open spec fn reaches(
    confirmations: Option<usize>,
    confirmation_status: Option<TransactionConfirmationStatus>,
    level: CommitmentLevel,
) -> bool {
    match level {
        CommitmentLevel::Finalized => confirmations is None,
        CommitmentLevel::Confirmed => match confirmation_status {
            Some(status) => status != TransactionConfirmationStatus::Processed,
            None => confirmations is None || confirmations->0 > 1,
        },
        CommitmentLevel::Processed => true,
    }
}

/// The result that a status gives its transaction: its error, else success if it
/// has reached the commitment `level`, else nothing yet.
pub open spec fn verdict<E>(
    status: TransactionStatus<E>,
    level: CommitmentLevel,
) -> Option<TransactionResult<E>> {
    match status.err {
        Some(error) => Some(Err(error)),
        None => if reaches(status.confirmations, status.confirmation_status, level) {
            Some(Ok(()))
        } else {
            None
        },
    }
}

/// The positions of the entries without a result, in order.
pub open spec fn open_positions<E>(entries: Seq<Entry<E>>) -> Seq<int>
    decreases entries.len(),
{
    if entries.len() == 0 {
        Seq::empty()
    } else if entries.last().1 is None {
        open_positions(entries.drop_last()).push(entries.len() - 1)
    } else {
        open_positions(entries.drop_last())
    }
}

/// The signatures of the entries without a result, in order.
pub open spec fn open_signatures<E>(entries: Seq<Entry<E>>) -> Seq<Signature> {
    open_positions(entries).map_values(|position: int| entries[position].0)
}

/// How many entries before position `i` have no result.
pub open spec fn rank<E>(entries: Seq<Entry<E>>, i: int) -> int {
    open_positions(entries.take(i)).len() as int
}

/// The entry at position `i` after `statuses` came in for the entries without a
/// result, one for each of them in order: it changes only if it has no result, a
/// status came in for it and that status has a verdict.
pub open spec fn settled_entry<E>(
    entries: Seq<Entry<E>>,
    statuses: Seq<Option<TransactionStatus<E>>>,
    level: CommitmentLevel,
    i: int,
) -> Entry<E> {
    let k = rank(entries, i);
    if entries[i].1 is None && k < statuses.len() && statuses[k] is Some {
        (entries[i].0, verdict(statuses[k]->0, level))
    } else {
        entries[i]
    }
}

/// The entries after `statuses` came in for those without a result.
pub open spec fn settled<E>(
    entries: Seq<Entry<E>>,
    statuses: Seq<Option<TransactionStatus<E>>>,
    level: CommitmentLevel,
) -> Seq<Entry<E>> {
    Seq::new(entries.len(), |i: int| settled_entry(entries, statuses, level, i))
}

/// Entries for `signatures`, none of them with a result.
pub open spec fn unsettled<E>(signatures: Seq<Signature>) -> Seq<Entry<E>> {
    signatures.map_values(|signature: Signature| (signature, None::<TransactionResult<E>>))
}

/// The signatures of all entries, in order.
pub open spec fn signatures_of<E>(entries: Seq<Entry<E>>) -> Seq<Signature> {
    entries.map_values(|entry: Entry<E>| entry.0)
}

/// Calls `solana_transaction_status::TransactionStatus::satisfies_commitment` on a
/// status with these confirmations and this confirmation status. The contract
/// claims that the answer is `reaches`: at the finalized level the status has to be
/// rooted; at the confirmed level the reported confirmation status decides, and
/// without one more than one confirmation or being rooted does; any status
/// satisfies the processed level. The method reads no other field.
#[verifier::external_body]
fn status_satisfies(
    confirmations: Option<usize>,
    confirmation_status: Option<TransactionConfirmationStatus>,
    level: CommitmentLevel,
) -> (satisfied: bool)
    ensures
        satisfied == reaches(confirmations, confirmation_status, level),
{
    let confirmation_status = confirmation_status.map(|status| match status {
        TransactionConfirmationStatus::Processed => solana_transaction_status::TransactionConfirmationStatus::Processed,
        TransactionConfirmationStatus::Confirmed => solana_transaction_status::TransactionConfirmationStatus::Confirmed,
        TransactionConfirmationStatus::Finalized => solana_transaction_status::TransactionConfirmationStatus::Finalized,
    });
    let config = match level {
        CommitmentLevel::Processed => solana_commitment_config::CommitmentConfig::processed(),
        CommitmentLevel::Confirmed => solana_commitment_config::CommitmentConfig::confirmed(),
        CommitmentLevel::Finalized => solana_commitment_config::CommitmentConfig::finalized(),
    };
    solana_transaction_status::TransactionStatus { slot: 0, confirmations, status: Ok(()), err: None, confirmation_status }
        .satisfies_commitment(config)
}

impl<E> TransactionStatus<E> {
    /// Whether the transaction's block has reached the commitment asked for.
    pub fn satisfies_commitment(&self, commitment_config: CommitmentConfig) -> (satisfied: bool)
        ensures
            satisfied == reaches(
                self.confirmations,
                self.confirmation_status,
                commitment_config.commitment,
            ),
    {
        status_satisfies(
            self.confirmations,
            self.confirmation_status,
            commitment_config.commitment,
        )
    }

    /// The result that this status gives its transaction, if it gives one.
    pub fn into_verdict(self, commitment_config: CommitmentConfig) -> (result: Option<
        TransactionResult<E>,
    >)
        ensures
            result == verdict(self, commitment_config.commitment),
    {
        let satisfied = self.satisfies_commitment(commitment_config);
        match self.err {
            Some(error) => Some(Err(error)),
            None => if satisfied {
                Some(Ok(()))
            } else {
                None
            },
        }
    }
}

/// The signatures of the entries without a result, and the positions at which
/// those entries stand.
pub fn get_remaining_signatures_to_confirm<E>(tx_to_confirm: &Vec<Entry<E>>) -> (remaining: (
    Vec<Signature>,
    Vec<usize>,
))
    ensures
        remaining.0@ == open_signatures(tx_to_confirm@),
        remaining.1@.map_values(|position: usize| position as int) == open_positions(
            tx_to_confirm@,
        ),
{
    let mut signatures: Vec<Signature> = Vec::new();
    let mut positions: Vec<usize> = Vec::new();
    for i in 0..tx_to_confirm.len()
        invariant
            positions@.map_values(|position: usize| position as int) == open_positions(
                tx_to_confirm@.take(i as int),
            ),
            signatures@.len() == positions@.len(),
            forall|k: int|
                0 <= k < positions@.len() ==> 0 <= (#[trigger] positions@[k]) < i && signatures@[k]
                    == tx_to_confirm@[positions@[k] as int].0,
    {
        let ghost before = positions@;
        assert(tx_to_confirm@.take(i + 1).drop_last() == tx_to_confirm@.take(i as int));
        if tx_to_confirm[i].1.is_none() {
            signatures.push(tx_to_confirm[i].0);
            positions.push(i);
            assert(positions@.map_values(|position: usize| position as int) == before.map_values(
                |position: usize| position as int,
            ).push(i as int));
        }
    }
    assert(tx_to_confirm@.take(tx_to_confirm@.len() as int) == tx_to_confirm@);
    proof {
        let spec_positions = open_positions(tx_to_confirm@);
        assert forall|k: int| 0 <= k < signatures@.len() implies signatures@[k]
            == open_signatures(tx_to_confirm@)[k] by {
            assert(spec_positions[k] == positions@[k] as int);
        }
        assert(signatures@ == open_signatures(tx_to_confirm@));
    }
    (signatures, positions)
}

/// Takes in the statuses that were fetched for the entries without a result, one
/// for each of them in order, and sets the results that follow from them.
/// Entries for which no status came stay as they are.
pub fn record_statuses<E>(
    tx_to_confirm: &mut Vec<Entry<E>>,
    mut statuses: Vec<Option<TransactionStatus<E>>>,
    confirmation_level: CommitmentConfig,
)
    ensures
        final(tx_to_confirm)@ == settled(
            old(tx_to_confirm)@,
            statuses@,
            confirmation_level.commitment,
        ),
{
    let ghost entries = tx_to_confirm@;
    let ghost reported = statuses@;
    let count: usize = tx_to_confirm.len();
    let mut k: usize = 0;
    for i in 0..count
        invariant
            count == entries.len(),
            tx_to_confirm@.len() == entries.len(),
            statuses@.len() == reported.len(),
            k == rank(entries, i as int),
            k <= i,
            forall|j: int|
                0 <= j < i ==> #[trigger] tx_to_confirm@[j] == settled_entry(
                    entries,
                    reported,
                    confirmation_level.commitment,
                    j,
                ),
            forall|j: int| i <= j < entries.len() ==> #[trigger] tx_to_confirm@[j] == entries[j],
            forall|m: int| k <= m < reported.len() ==> #[trigger] statuses@[m] == reported[m],
    {
        assert(entries.take(i + 1).drop_last() == entries.take(i as int));
        if tx_to_confirm[i].1.is_none() {
            if k < statuses.len() {
                let status = statuses[k].take();
                if let Some(status) = status {
                    let signature = tx_to_confirm[i].0;
                    let result = status.into_verdict(confirmation_level);
                    tx_to_confirm.set(i, (signature, result));
                }
            }
            k += 1;
        }
    }
    assert(tx_to_confirm@ == settled(entries, reported, confirmation_level.commitment));
}

} // verus!
