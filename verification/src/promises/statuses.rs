//! What statuses say of a transaction, and what they settle.
use vstd::prelude::*;

use crate::guarantees::open_positions_are_exact;
use crate::status::{
    get_remaining_signatures_to_confirm, open_positions, open_signatures, rank, record_statuses,
    Entry, TransactionConfirmationStatus, TransactionResult, TransactionStatus,
};
use crate::types::{CommitmentConfig, CommitmentLevel, Signature};

verus! {

/// Which statuses satisfy which commitment: every one the processed level; a rooted
/// one, and no other, the finalized level; the confirmed level one that is reported
/// as confirmed or more, or, where the node does not say, one that is rooted or has
/// more than one confirmation.
pub proof fn commitment_is_exact<E>(
    status: &TransactionStatus<E>,
    config: CommitmentConfig,
    satisfied: bool,
)
    requires
        call_ensures(TransactionStatus::<E>::satisfies_commitment, (status, config), satisfied),
    ensures
        config.commitment == CommitmentLevel::Processed ==> satisfied,
        config.commitment == CommitmentLevel::Finalized ==> satisfied == (status.confirmations
            is None),
        config.commitment == CommitmentLevel::Confirmed ==> {
            &&& status.confirmation_status == Some(TransactionConfirmationStatus::Processed)
                ==> !satisfied
            &&& status.confirmation_status == Some(TransactionConfirmationStatus::Confirmed)
                ==> satisfied
            &&& status.confirmation_status == Some(TransactionConfirmationStatus::Finalized)
                ==> satisfied
            &&& status.confirmation_status is None ==> satisfied == (match status.confirmations {
                Some(confirmations) => confirmations >= 2,
                None => true,
            })
        },
{
}

/// A transaction that failed on chain is reported with its error, at every level and
/// however well its block is confirmed; one that did not is reported as successful
/// exactly if its status satisfies the commitment, and not at all otherwise.
pub proof fn verdict_is_exact<E>(
    status: TransactionStatus<E>,
    config: CommitmentConfig,
    satisfied: bool,
    result: Option<TransactionResult<E>>,
)
    requires
        call_ensures(TransactionStatus::<E>::satisfies_commitment, (&status, config), satisfied),
        call_ensures(TransactionStatus::<E>::into_verdict, (status, config), result),
    ensures
        status.err matches Some(error) ==> result == Some(Err::<(), E>(error)),
        status.err is None && satisfied ==> result == Some(Ok::<(), E>(())),
        status.err is None && !satisfied ==> result is None,
        result == Some(Ok::<(), E>(())) ==> status.err is None && satisfied,
        result matches Some(Err(error)) ==> status.err == Some(error),
{
}

/// Success is never reported of a failed transaction, nor below the commitment asked
/// for, and a failure is never passed over.
pub proof fn success_is_not_claimed_early<E>(
    status: TransactionStatus<E>,
    config: CommitmentConfig,
    result: Option<TransactionResult<E>>,
)
    requires
        call_ensures(TransactionStatus::<E>::into_verdict, (status, config), result),
    ensures
        status.err is Some ==> result is Some && result->0 is Err && status.err == Some(
            result->0->Err_0,
        ),
        result == Some(Ok::<(), E>(())) && config.commitment == CommitmentLevel::Finalized
            ==> status.confirmations is None,
        result == Some(Ok::<(), E>(())) && config.commitment == CommitmentLevel::Confirmed
            ==> status.confirmation_status != Some(TransactionConfirmationStatus::Processed),
        status.err is None && config.commitment == CommitmentLevel::Processed ==> result == Some(
            Ok::<(), E>(()),
        ),
{
}

/// The entries without a result, in order.
pub open spec fn without_result<E>(entries: Seq<Entry<E>>) -> Seq<Entry<E>> {
    entries.filter(|entry: Entry<E>| entry.1 is None)
}

/// One entry after another: one without a result is counted, one with a result is
/// not.
pub proof fn without_result_is_exact<E>(entries: Seq<Entry<E>>, entry: Entry<E>)
    ensures
        entries.len() == 0 ==> without_result(entries).len() == 0,
        entry.1 is None ==> without_result(entries.push(entry)) == without_result(entries).push(
            entry,
        ),
        entry.1 is Some ==> without_result(entries.push(entry)) == without_result(entries),
{
    reveal(Seq::filter);
    assert(entries.push(entry).drop_last() == entries);
}

/// Positions and signatures of the entries without a result go together, and before
/// a position stand as many of them as its rank says.
pub(crate) proof fn open_entries_are_exact<E>(entries: Seq<Entry<E>>)
    ensures
        open_positions(entries).len() == without_result(entries).len(),
        open_signatures(entries).len() == without_result(entries).len(),
        forall|k: int|
            0 <= k < without_result(entries).len() ==> open_signatures(entries)[k]
                == (#[trigger] without_result(entries)[k]).0,
        forall|i: int|
            0 <= i <= entries.len() ==> #[trigger] rank(entries, i) == without_result(
                entries.take(i),
            ).len(),
    decreases entries.len(),
{
    reveal(Seq::filter);
    open_positions_are_exact(entries);
    let open = without_result(entries);
    if entries.len() > 0 {
        let shorter = entries.drop_last();
        open_entries_are_exact(shorter);
        open_positions_are_exact(shorter);
        let before = without_result(shorter);
        assert forall|k: int| 0 <= k < open.len() implies open_signatures(entries)[k] == (
        #[trigger] open[k]).0 by {
            if k < before.len() {
                assert(open[k] == before[k]);
                let p = open_positions(shorter)[k];
                assert(open_positions(shorter).contains(p));
                assert(open_positions(entries)[k] == p);
                assert(open_signatures(shorter)[k] == shorter[p].0);
            }
        }
        assert forall|i: int| 0 <= i <= entries.len() implies #[trigger] rank(entries, i)
            == without_result(entries.take(i)).len() by {
            if i < entries.len() {
                assert(entries.take(i) == shorter.take(i));
                assert(rank(shorter, i) == without_result(shorter.take(i)).len());
            } else {
                assert(entries.take(i) == entries);
            }
        }
    } else {
        assert forall|i: int| 0 <= i <= entries.len() implies #[trigger] rank(entries, i)
            == without_result(entries.take(i)).len() by {
            assert(entries.take(i) == entries);
        }
    }
}

/// What is left to confirm is every transaction without a result and no other, in
/// order, each once and with its own signature.
pub proof fn remaining_is_exact<E>(entries: &Vec<Entry<E>>, remaining: (Vec<Signature>, Vec<usize>))
    requires
        call_ensures(get_remaining_signatures_to_confirm::<E>, (entries,), remaining),
    ensures
        remaining.0@.len() == remaining.1@.len(),
        forall|k: int|
            0 <= k < remaining.1@.len() ==> (#[trigger] remaining.1@[k]) < entries@.len()
                && entries@[remaining.1@[k] as int].1 is None && remaining.0@[k]
                == entries@[remaining.1@[k] as int].0,
        forall|j: int, k: int|
            0 <= j < k < remaining.1@.len() ==> remaining.1@[j] < remaining.1@[k],
        forall|p: int|
            0 <= p < entries@.len() && (#[trigger] entries@[p]).1 is None ==> exists|k: int|
                0 <= k < remaining.1@.len() && remaining.1@[k] == p,
{
    open_positions_are_exact(entries@);
    let positions = open_positions(entries@);
    assert(remaining.1@.map_values(|position: usize| position as int).len()
        == remaining.1@.len());
    assert forall|k: int| 0 <= k < remaining.1@.len() implies #[trigger] remaining.1@[k]
        == positions[k] && remaining.0@[k] == entries@[positions[k]].0 && positions.contains(
        positions[k],
    ) by {
        assert(remaining.1@.map_values(|position: usize| position as int)[k] == positions[k]);
        assert(open_signatures(entries@)[k] == entries@[positions[k]].0);
    }
    assert forall|p: int| 0 <= p < entries@.len() && (#[trigger] entries@[p]).1 is None implies exists|
        k: int,
    | 0 <= k < remaining.1@.len() && remaining.1@[k] == p by {
        assert(positions.contains(p));
        let k = positions.index_of(p);
        assert(remaining.1@[k] == p);
    }
}

/// Recording statuses changes no signature and no result that is known. The status
/// for an entry without a result stands as far down the list as such entries stand
/// before it; the entry gets the verdict of that status, or keeps having no result
/// where there is none.
pub proof fn recorded_results_are_exact<E>(
    entries: &mut Vec<Entry<E>>,
    statuses: Vec<Option<TransactionStatus<E>>>,
    config: CommitmentConfig,
    i: int,
    status: TransactionStatus<E>,
    result: Option<TransactionResult<E>>,
)
    requires
        call_ensures(record_statuses::<E>, (entries, statuses, config), ()),
        0 <= i < old(entries)@.len(),
        call_ensures(TransactionStatus::<E>::into_verdict, (status, config), result),
    ensures
        final(entries)@.len() == old(entries)@.len(),
        final(entries)@[i].0 == old(entries)@[i].0,
        old(entries)@[i].1 is Some ==> final(entries)@[i].1 == old(entries)@[i].1,
        ({
            let k = without_result(old(entries)@.take(i)).len() as int;
            old(entries)@[i].1 is None ==> {
                &&& k >= statuses@.len() ==> final(entries)@[i].1 is None
                &&& k < statuses@.len() && statuses@[k] is None ==> final(entries)@[i].1 is None
                &&& k < statuses@.len() && statuses@[k] == Some(status) ==> final(entries)@[i].1
                    == result
                &&& k < statuses@.len() && statuses@[k] == Some(status) && status.err is Some
                    ==> final(entries)@[i].1 == Some(Err::<(), E>(status.err->0))
            }
        }),
{
    open_entries_are_exact(old(entries)@);
    assert(rank(old(entries)@, i) == without_result(old(entries)@.take(i)).len());
}

} // verus!
