//! A client made of two: one node answers requests, another takes transactions.
use vstd::prelude::*;

use crate::types::{CommitmentConfig, CommitmentLevel, Pubkey};

verus! {

/// A pair of clients of type `R`.
#[derive(Debug)]
pub struct CompositeRpcClient<R> {
    rpc_client: R,
    sender_client: R,
}

/// How a node is to treat a transaction that it is sent. What is not said here has
/// its default.
#[derive(Clone, Copy, Debug, PartialEq, Eq)]
pub struct SendTransactionConfig {
    pub skip_preflight: bool,
    pub preflight_commitment: Option<CommitmentLevel>,
    /// How often the node retries; `None` lets it retry until the blockhash
    /// expires.
    pub max_retries: Option<usize>,
}

/// Why a transaction was not sent.
#[derive(Debug, PartialEq, Eq)]
pub enum NotSent<E, C> {
    /// Its simulation failed with this error of the transaction.
    Simulation(E),
    /// The request to simulate it failed.
    Client(C),
}

/// A JSON value.
#[derive(Debug, PartialEq, Eq)]
pub enum Json {
    Number(u64),
    Text(String),
    Array(Vec<Json>),
    Object(Vec<(String, Json)>),
}

/// The fee that was paid in one slot.
#[derive(Clone, Copy, Debug, PartialEq, Eq)]
pub struct RpcPrioritizationFee {
    pub slot: u64,
    pub prioritization_fee: u64,
}

/// The percentile of fees that is asked for, in hundredths of a percent: the 25th.
pub const FEE_PERCENTILE: u64 = 2500;

/// The number that `bytes` denote, the highest first.
pub open spec fn big_endian(bytes: Seq<u8>) -> nat
    decreases bytes.len(),
{
    if bytes.len() == 0 {
        0
    } else {
        big_endian(bytes.drop_last()) * 256 + bytes.last() as nat
    }
}

/// `n` in base 58; nothing for zero.
pub open spec fn base58_number(n: nat) -> Seq<char>
    decreases n,
{
    if n == 0 {
        Seq::empty()
    } else {
        base58_number(n / 58).push(
            "123456789ABCDEFGHJKLMNPQRSTUVWXYZabcdefghijkmnopqrstuvwxyz"@[(n % 58) as int],
        )
    }
}

/// The base 58 text of `bytes`: a `1` for each leading zero byte, then the number
/// that the rest denotes.
pub open spec fn base58(bytes: Seq<u8>) -> Seq<char>
    decreases bytes.len(),
{
    if bytes.len() > 0 && bytes[0] == 0 {
        seq!['1'] + base58(bytes.skip(1))
    } else {
        base58_number(big_endian(bytes))
    }
}

/// Calls `to_string` on a `solana_pubkey::Pubkey`. The contract claims that the
/// text is the address in base 58.
#[verifier::external_body]
fn address_text(address: &Pubkey) -> (text: String)
    ensures
        text@ == base58(address.0@),
{
    solana_pubkey::Pubkey::from(address.0).to_string()
}

/// The highest of `fees`; zero where there is none.
pub open spec fn highest_fee(fees: Seq<RpcPrioritizationFee>) -> u64
    decreases fees.len(),
{
    if fees.len() == 0 {
        0
    } else if fees.last().prioritization_fee > highest_fee(fees.drop_last()) {
        fees.last().prioritization_fee
    } else {
        highest_fee(fees.drop_last())
    }
}

/// Whether `params` ask for the recent fees of `accounts`: an array of an array
/// that holds the array of their addresses, and of an object with the percentile.
pub open spec fn asks_for_fees_of(params: Json, accounts: Seq<Pubkey>) -> bool {
    &&& params matches Json::Array(items)
    &&& items@.len() == 2
    &&& items@[0] matches Json::Array(groups)
    &&& groups@.len() == 1
    &&& groups@[0] matches Json::Array(addresses)
    &&& addresses@.len() == accounts.len()
    &&& forall|i: int|
        0 <= i < accounts.len() ==> is_address_of(#[trigger] addresses@[i], accounts[i])
    &&& items@[1] matches Json::Object(fields)
    &&& fields@.len() == 1
    &&& fields@[0].0@ == "percentile"@
    &&& fields@[0].1 == Json::Number(FEE_PERCENTILE)
}

/// Whether `value` is the text of an address.
pub open spec fn is_address_of(value: Json, account: Pubkey) -> bool {
    value matches Json::Text(text) && text@ == base58(account.0@)
}

impl<R> CompositeRpcClient<R> {
    /// The client that answers requests.
    pub closed spec fn requests(self) -> R {
        self.rpc_client
    }

    /// The client that takes transactions.
    pub closed spec fn sends(self) -> R {
        self.sender_client
    }

    /// Connects to both nodes at the same commitment.
    pub fn new<F: Fn(String, CommitmentConfig) -> R>(
        rpc_client_url: String,
        sender_client_url: String,
        commitment_config: CommitmentConfig,
        connect: F,
    ) -> (client: Self)
        requires
            call_requires(connect, (rpc_client_url, commitment_config)),
            call_requires(connect, (sender_client_url, commitment_config)),
        ensures
            call_ensures(connect, (rpc_client_url, commitment_config), client.requests()),
            call_ensures(connect, (sender_client_url, commitment_config), client.sends()),
    {
        let rpc_client = connect(rpc_client_url, commitment_config);
        let sender_client = connect(sender_client_url, commitment_config);
        CompositeRpcClient { rpc_client, sender_client }
    }

    /// The client to ask: for simulations, statuses, blockhashes, balances,
    /// accounts, slots and fees.
    pub fn rpc_client(&self) -> (client: &R)
        ensures
            *client == self.requests(),
    {
        &self.rpc_client
    }

    /// Where and how to send a transaction that the node does not retry, after its
    /// simulation: `simulation` is the error in it, if there was one, or the failure
    /// to simulate.
    pub fn send_transaction_no_retry<E, C>(&self, simulation: Result<Option<E>, C>) -> (order:
        Result<(&R, SendTransactionConfig), NotSent<E, C>>)
        ensures
            match simulation {
                Err(error) => order matches Err(NotSent::Client(reason)) && reason == error,
                Ok(Some(error)) => order matches Err(NotSent::Simulation(reason)) && reason
                    == error,
                Ok(None) => order matches Ok((client, config)) && *client == self.sends() && config
                    == send_config(Some(0)),
            },
    {
        self.send_simulated(simulation, Some(0))
    }

    /// Where and how to send a transaction that the node retries, after its
    /// simulation.
    pub fn send_transaction<E, C>(&self, simulation: Result<Option<E>, C>) -> (order: Result<
        (&R, SendTransactionConfig),
        NotSent<E, C>,
    >)
        ensures
            match simulation {
                Err(error) => order matches Err(NotSent::Client(reason)) && reason == error,
                Ok(Some(error)) => order matches Err(NotSent::Simulation(reason)) && reason
                    == error,
                Ok(None) => order matches Ok((client, config)) && *client == self.sends() && config
                    == send_config(None),
            },
    {
        self.send_simulated(simulation, None)
    }

    /// Where and how to send a transaction without simulation, which the node does
    /// not retry.
    pub fn send_transaction_no_retry_no_preflight(&self) -> (order: (&R, SendTransactionConfig))
        ensures
            *order.0 == self.sends(),
            order.1 == send_config(Some(0)),
    {
        (&self.sender_client, new_send_config(Some(0)))
    }

    /// Where and how to send a transaction after its simulation.
    fn send_simulated<E, C>(
        &self,
        simulation: Result<Option<E>, C>,
        max_retries: Option<usize>,
    ) -> (order: Result<(&R, SendTransactionConfig), NotSent<E, C>>)
        ensures
            match simulation {
                Err(error) => order matches Err(NotSent::Client(reason)) && reason == error,
                Ok(Some(error)) => order matches Err(NotSent::Simulation(reason)) && reason
                    == error,
                Ok(None) => order matches Ok((client, config)) && *client == self.sends() && config
                    == send_config(max_retries),
            },
    {
        match simulation {
            Err(error) => Err(NotSent::Client(error)),
            Ok(Some(error)) => Err(NotSent::Simulation(error)),
            Ok(None) => Ok((&self.sender_client, new_send_config(max_retries))),
        }
    }

    /// What to ask for to learn the fees paid of late for the use of `accounts`.
    pub fn recent_fees_params(&self, accounts: &[Pubkey]) -> (params: Json)
        ensures
            asks_for_fees_of(params, accounts@),
    {
        let mut addresses: Vec<Json> = Vec::new();
        for i in 0..accounts.len()
            invariant
                addresses@.len() == i,
                forall|j: int|
                    0 <= j < i ==> is_address_of(#[trigger] addresses@[j], accounts@[j]),
        {
            addresses.push(Json::Text(address_text(&accounts[i])));
        }
        let mut groups: Vec<Json> = Vec::new();
        groups.push(Json::Array(addresses));
        let mut fields: Vec<(String, Json)> = Vec::new();
        fields.push(("percentile".to_owned(), Json::Number(FEE_PERCENTILE)));
        let mut items: Vec<Json> = Vec::new();
        items.push(Json::Array(groups));
        items.push(Json::Object(fields));
        Json::Array(items)
    }

    /// The fee to recommend for the use of some accounts: the highest of `fees`, or
    /// zero where there is none.
    pub fn get_recommended_micro_lamport_fee_for_accounts<C>(
        &self,
        fees: Result<Vec<RpcPrioritizationFee>, C>,
    ) -> (fee: Result<u64, C>)
        ensures
            match fees {
                Ok(list) => fee == Ok::<u64, C>(highest_fee(list@)),
                Err(error) => fee == Err::<u64, C>(error),
            },
    {
        match fees {
            Err(error) => Err(error),
            Ok(list) => {
                let mut highest: u64 = 0;
                for i in 0..list.len()
                    invariant
                        highest == highest_fee(list@.take(i as int)),
                {
                    assert(list@.take(i + 1).drop_last() == list@.take(i as int));
                    if list[i].prioritization_fee > highest {
                        highest = list[i].prioritization_fee;
                    }
                }
                assert(list@.take(list@.len() as int) == list@);
                Ok(highest)
            },
        }
    }
}

/// How a transaction is sent: without the node's own simulation, which would be at
/// the finalized commitment, and with so many retries.
pub open spec fn send_config(max_retries: Option<usize>) -> SendTransactionConfig {
    SendTransactionConfig {
        skip_preflight: true,
        preflight_commitment: Some(CommitmentLevel::Finalized),
        max_retries,
    }
}

/// How a transaction is sent.
fn new_send_config(max_retries: Option<usize>) -> (config: SendTransactionConfig)
    ensures
        config == send_config(max_retries),
{
    SendTransactionConfig {
        skip_preflight: true,
        preflight_commitment: Some(CommitmentLevel::Finalized),
        max_retries,
    }
}

/// The highest fee is no less than any fee, and is one of them unless there is none
/// above zero.
pub proof fn highest_fee_is_exact(fees: Seq<RpcPrioritizationFee>)
    ensures
        forall|i: int|
            0 <= i < fees.len() ==> (#[trigger] fees[i]).prioritization_fee <= highest_fee(fees),
        highest_fee(fees) == 0 || exists|i: int|
            0 <= i < fees.len() && (#[trigger] fees[i]).prioritization_fee == highest_fee(fees),
    decreases fees.len(),
{
    if fees.len() > 0 {
        let shorter = fees.drop_last();
        highest_fee_is_exact(shorter);
        assert forall|i: int| 0 <= i < fees.len() implies (
        #[trigger] fees[i]).prioritization_fee <= highest_fee(fees) by {
            if i < shorter.len() {
                assert(shorter[i].prioritization_fee <= highest_fee(shorter));
            }
        }
        if highest_fee(fees) != 0 {
            if fees.last().prioritization_fee > highest_fee(shorter) {
                assert(fees[fees.len() - 1].prioritization_fee == highest_fee(fees));
            } else {
                let i = choose|i: int|
                    0 <= i < shorter.len() && (#[trigger] shorter[i]).prioritization_fee
                        == highest_fee(shorter);
                assert(fees[i].prioritization_fee == highest_fee(fees));
            }
        }
    }
}

} // verus!
