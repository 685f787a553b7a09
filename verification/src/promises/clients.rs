//! Which node a composite client uses, and what it asks for.
use vstd::prelude::*;

use crate::async_client::composite_rpc_client::{
    base58, base58_number, big_endian, highest_fee_is_exact, CompositeRpcClient, Json, NotSent,
    RpcPrioritizationFee, SendTransactionConfig,
};
use crate::types::{CommitmentConfig, CommitmentLevel, Pubkey};

verus! {

/// Each node is connected by its own address, both at the commitment given; requests
/// go to the one and transactions to the other.
pub proof fn nodes_are_told_apart<R, F: Fn(String, CommitmentConfig) -> R>(
    rpc_client_url: String,
    sender_client_url: String,
    commitment_config: CommitmentConfig,
    connect: F,
    client: CompositeRpcClient<R>,
    asked: &R,
    order: (&R, SendTransactionConfig),
)
    requires
        call_ensures(
            CompositeRpcClient::<R>::new::<F>,
            (rpc_client_url, sender_client_url, commitment_config, connect),
            client,
        ),
        call_ensures(CompositeRpcClient::<R>::rpc_client, (&client,), asked),
        call_ensures(
            CompositeRpcClient::<R>::send_transaction_no_retry_no_preflight,
            (&client,),
            order,
        ),
    ensures
        call_ensures(connect, (rpc_client_url, commitment_config), *asked),
        call_ensures(connect, (sender_client_url, commitment_config), *order.0),
{
}

/// Without simulation a transaction goes to the sending node, which neither simulates
/// nor retries.
pub proof fn unsimulated_order_is_exact<R>(
    client: &CompositeRpcClient<R>,
    order: (&R, SendTransactionConfig),
)
    requires
        call_ensures(
            CompositeRpcClient::<R>::send_transaction_no_retry_no_preflight,
            (client,),
            order,
        ),
    ensures
        *order.0 == client.sends(),
        order.1.skip_preflight,
        order.1.preflight_commitment == Some(CommitmentLevel::Finalized),
        order.1.max_retries == Some(0usize),
{
}

/// A transaction is sent exactly if its simulation came back without an error, and
/// then to the node that takes transactions sent without simulation; the node
/// retries it, or does not, as was asked. An error in the simulation and a failed
/// request are reported as such.
pub proof fn simulated_orders_are_exact<R, E, C>(
    client: &CompositeRpcClient<R>,
    simulation: Result<Option<E>, C>,
    retried: Result<(&R, SendTransactionConfig), NotSent<E, C>>,
    once: Result<(&R, SendTransactionConfig), NotSent<E, C>>,
    unsimulated: (&R, SendTransactionConfig),
)
    requires
        call_ensures(
            CompositeRpcClient::<R>::send_transaction::<E, C>,
            (client, simulation),
            retried,
        ),
        call_ensures(
            CompositeRpcClient::<R>::send_transaction_no_retry::<E, C>,
            (client, simulation),
            once,
        ),
        call_ensures(
            CompositeRpcClient::<R>::send_transaction_no_retry_no_preflight,
            (client,),
            unsimulated,
        ),
    ensures
        match simulation {
            Ok(None) => {
                &&& retried is Ok && once is Ok
                &&& *retried->Ok_0.0 == *unsimulated.0
                &&& *once->Ok_0.0 == *unsimulated.0
                &&& retried->Ok_0.1.skip_preflight
                &&& retried->Ok_0.1.preflight_commitment == Some(CommitmentLevel::Finalized)
                &&& retried->Ok_0.1.max_retries is None
                &&& once->Ok_0.1.skip_preflight
                &&& once->Ok_0.1.preflight_commitment == Some(CommitmentLevel::Finalized)
                &&& once->Ok_0.1.max_retries == Some(0usize)
            },
            Ok(Some(error)) => {
                &&& retried is Err && retried->Err_0 == NotSent::<E, C>::Simulation(error)
                &&& once is Err && once->Err_0 == NotSent::<E, C>::Simulation(error)
            },
            Err(error) => {
                &&& retried is Err && retried->Err_0 == NotSent::<E, C>::Client(error)
                &&& once is Err && once->Err_0 == NotSent::<E, C>::Client(error)
            },
        },
{
}

/// Fees are asked for by the address of each account, all and in order, at the 25th
/// percentile.
pub proof fn fee_request_is_exact<R>(
    client: &CompositeRpcClient<R>,
    accounts: &[Pubkey],
    params: Json,
)
    requires
        call_ensures(CompositeRpcClient::<R>::recent_fees_params, (client, accounts), params),
    ensures
        params matches Json::Array(items) && items@.len() == 2 && (items@[0] matches Json::Array(
            groups,
        ) && groups@.len() == 1 && (groups@[0] matches Json::Array(addresses) && addresses@.len()
            == accounts@.len() && forall|i: int|
            0 <= i < accounts@.len() ==> ((#[trigger] addresses@[i]) matches Json::Text(text)
                && text@ == base58(accounts@[i].0@)))) && (items@[1] matches Json::Object(fields)
            && fields@.len() == 1 && fields@[0].0@ == "percentile"@ && fields@[0].1
            == Json::Number(2500)),
{
    if let Json::Array(items) = params {
        if let Json::Array(groups) = items@[0] {
            if let Json::Array(addresses) = groups@[0] {
                assert forall|i: int| 0 <= i < accounts@.len() implies ((
                #[trigger] addresses@[i]) matches Json::Text(text) && text@ == base58(
                    accounts@[i].0@,
                )) by {}
            }
        }
    }
}

/// The fee recommended is the highest that was paid: no less than any of them, one of
/// them, and zero where there is none.
pub proof fn highest_paid_fee_is_recommended<R, C>(
    client: &CompositeRpcClient<R>,
    fees: Result<Vec<RpcPrioritizationFee>, C>,
    fee: Result<u64, C>,
)
    requires
        call_ensures(
            CompositeRpcClient::<R>::get_recommended_micro_lamport_fee_for_accounts::<C>,
            (client, fees),
            fee,
        ),
    ensures
        fees matches Err(error) ==> fee == Err::<u64, C>(error),
        fees matches Ok(list) ==> {
            &&& fee is Ok
            &&& list@.len() == 0 ==> fee->Ok_0 == 0
            &&& forall|i: int|
                0 <= i < list@.len() ==> (#[trigger] list@[i]).prioritization_fee <= fee->Ok_0
            &&& list@.len() > 0 ==> exists|i: int|
                0 <= i < list@.len() && (#[trigger] list@[i]).prioritization_fee == fee->Ok_0
        },
{
    if let Ok(list) = fees {
        highest_fee_is_exact(list@);
        if list@.len() > 0 && fee->Ok_0 == 0 {
            assert(list@[0].prioritization_fee == 0);
        }
    }
}

/// The place of a character in the base 58 alphabet.
pub open spec fn base58_digit(c: char) -> int {
    if '1' <= c && c <= '9' {
        c as int - '1' as int
    } else if 'A' <= c && c <= 'H' {
        c as int - 'A' as int + 9
    } else if 'J' <= c && c <= 'N' {
        c as int - 'J' as int + 17
    } else if 'P' <= c && c <= 'Z' {
        c as int - 'P' as int + 22
    } else if 'a' <= c && c <= 'k' {
        c as int - 'a' as int + 33
    } else {
        c as int - 'm' as int + 44
    }
}

/// The number that a base 58 text denotes.
pub open spec fn base58_value(text: Seq<char>) -> int
    decreases text.len(),
{
    if text.len() == 0 {
        0
    } else {
        base58_value(text.drop_last()) * 58 + base58_digit(text.last())
    }
}

/// The text of a number in base 58 reads back as that number and has no leading zero.
pub proof fn base58_number_reads_back(n: nat)
    ensures
        base58_value(base58_number(n)) == n,
        n == 0 <==> base58_number(n).len() == 0,
        n > 0 ==> base58_number(n)[0] != '1',
    decreases n,
{
    reveal_strlit("123456789ABCDEFGHJKLMNPQRSTUVWXYZabcdefghijkmnopqrstuvwxyz");
    let alphabet = "123456789ABCDEFGHJKLMNPQRSTUVWXYZabcdefghijkmnopqrstuvwxyz"@;
    if n > 0 {
        base58_number_reads_back(n / 58);
        let text = base58_number(n);
        assert(text.drop_last() == base58_number(n / 58));
        assert(base58_digit(alphabet[(n % 58) as int]) == n % 58);
        assert(text.last() == alphabet[(n % 58) as int]);
        if n / 58 > 0 {
            assert(text[0] == base58_number(n / 58)[0]);
        } else {
            assert(n % 58 == n);
            assert(text[0] == alphabet[n as int]);
            assert(base58_digit('1') == 0);
        }
    }
}

/// Bytes denote a number, the highest byte first.
pub proof fn bytes_denote_a_number(bytes: Seq<u8>, last: u8)
    ensures
        bytes.len() == 0 ==> big_endian(bytes) == 0,
        big_endian(bytes.push(last)) == big_endian(bytes) * 256 + last,
{
    assert(bytes.push(last).drop_last() == bytes);
}

/// The text of an address begins with a `1` for each leading zero byte, and what
/// follows denotes the number that the other bytes denote.
pub proof fn address_text_reads_back(bytes: Seq<u8>)
    ensures
        bytes.len() > 0 && bytes[0] == 0 ==> base58(bytes) == seq!['1'] + base58(bytes.skip(1)),
        bytes.len() > 0 && bytes[0] != 0 ==> base58_value(base58(bytes)) == big_endian(bytes)
            && base58(bytes)[0] != '1',
        bytes.len() == 0 ==> base58(bytes).len() == 0,
{
    base58_number_reads_back(big_endian(bytes));
    if bytes.len() > 0 && bytes[0] != 0 {
        leading_byte_counts(bytes);
    }
}

/// Bytes that do not begin with zero do not denote zero.
proof fn leading_byte_counts(bytes: Seq<u8>)
    requires
        bytes.len() > 0,
        bytes[0] != 0,
    ensures
        big_endian(bytes) > 0,
    decreases bytes.len(),
{
    if bytes.len() == 1 {
        assert(bytes.drop_last().len() == 0);
        assert(big_endian(bytes.drop_last()) == 0);
    } else {
        assert(bytes.drop_last()[0] == bytes[0]);
        leading_byte_counts(bytes.drop_last());
    }
}

} // verus!
