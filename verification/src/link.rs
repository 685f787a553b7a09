//! The link to the network: who pays, which lookup tables are used, at which
//! commitment transactions are confirmed, and the fee to pay.
use vstd::prelude::*;

use solana_message::v0::Message;

use crate::errors::{invalid_input, ErrorKind, Failure};
use crate::fees::{FeeCache, FeeRefresh};
use crate::session::{Action, Pacing, Session};
use crate::transaction::{compile, create_account, join_tables};
use crate::types::{AddressLookupTableAccount, Blockhash, CommitmentConfig, Instruction, Pubkey};
#[allow(unused_imports)]
use crate::fees::{fetched_or_zero, needed_refresh, recommended_fee, MIN_FEE};
#[allow(unused_imports)]
use crate::session::{first_send_mode, retry_plan, ActionView, SendMode, SessionState};
#[allow(unused_imports)]
use crate::transaction::{compiled_message, create_account_instruction, message_outcome};
#[allow(unused_imports)]
use crate::types::{instructions_view, tables_view, InstructionView, LookupTableView};

verus! {

/// A link to the network through a client of type `T`, for a payer who signs with
/// an `S`.
#[derive(Debug)]
pub struct OrbitLink<T, S> {
    pub client: T,
    payer: Option<S>,
    payer_pubkey: Option<Pubkey>,
    lookup_tables: Vec<AddressLookupTableAccount>,
    commitment_config: CommitmentConfig,
    fee_cache: FeeCache,
}

/// What a link holds, as mathematical values.
#[verifier::ext_equal]
pub struct LinkView<T, S> {
    pub client: T,
    pub payer: Option<S>,
    pub payer_pubkey: Option<Pubkey>,
    pub lookup_tables: Seq<LookupTableView>,
    pub commitment_config: CommitmentConfig,
    pub fee_cache: FeeCache,
}

impl<T, S> View for OrbitLink<T, S> {
    type V = LinkView<T, S>;

    closed spec fn view(&self) -> LinkView<T, S> {
        LinkView {
            client: self.client,
            payer: self.payer,
            payer_pubkey: self.payer_pubkey,
            lookup_tables: tables_view(self.lookup_tables@),
            commitment_config: self.commitment_config,
            fee_cache: self.fee_cache,
        }
    }
}

impl<T, S> LinkView<T, S> {
    /// Someone pays, and the cached fee can be recommended.
    pub open spec fn wf(self) -> bool {
        &&& self.payer is Some || self.payer_pubkey is Some
        &&& self.fee_cache.wf()
    }

    /// Whether `pubkey_of` can be asked for the key of the payer, if one signs.
    pub open spec fn knows_key<F: Fn(&S) -> Pubkey>(self, pubkey_of: F) -> bool {
        self.payer matches Some(payer) ==> call_requires(pubkey_of, (&payer,))
    }

    /// Whether `key` is the payer's: the key of the signer where there is one, else
    /// the key that was given.
    pub open spec fn is_payer_key<F: Fn(&S) -> Pubkey>(self, pubkey_of: F, key: Pubkey) -> bool {
        match self.payer {
            Some(payer) => call_ensures(pubkey_of, (&payer,), key),
            None => self.payer_pubkey == Some(key),
        }
    }

    /// The same link with one more lookup table, which comes last.
    pub open spec fn with_lookup_table(self, table: LookupTableView) -> Self {
        LinkView { lookup_tables: self.lookup_tables.push(table), ..self }
    }

    /// Whether `outcome` is what comes of making a transaction of `instructions`
    /// with the lookup tables given: without a signer an error; else the client's
    /// error, if it has no blockhash; else what the instructions compile to, with
    /// the signer as the payer.
    pub open spec fn creates<C, F: Fn(&S) -> Pubkey>(
        self,
        lookup_tables: Seq<LookupTableView>,
        instructions: Seq<InstructionView>,
        blockhash: Result<Blockhash, C>,
        pubkey_of: F,
        outcome: Result<Message, Failure<C>>,
    ) -> bool {
        match self.payer {
            None => outcome matches Err(Failure::Link(error)) && error.is_invalid_input(
                "No payer provided"@,
            ),
            Some(payer) => match blockhash {
                Err(error) => outcome == Err::<Message, Failure<C>>(
                    Failure::Client(error),
                ),
                Ok(hash) => exists|key: Pubkey|
                    call_ensures(pubkey_of, (&payer,), key) && outcome == message_outcome::<C>(
                        #[trigger] compiled_message(
                            key.0@,
                            instructions,
                            lookup_tables,
                            hash.0@,
                        ),
                    ),
            },
        }
    }
}

impl<T, S> OrbitLink<T, S> {
    /// A link for a payer who signs, or whose key alone is known.
    pub fn new(
        client: T,
        payer: Option<S>,
        lookup_tables: Option<Vec<AddressLookupTableAccount>>,
        commitment_config: CommitmentConfig,
        payer_pubkey: Option<Pubkey>,
    ) -> (link: Result<Self, ErrorKind>)
        ensures
            match link {
                Err(error) => {
                    &&& payer is None && payer_pubkey is None
                    &&& error.is_invalid_input("No payer nor payer_pubkey provided"@)
                },
                Ok(link) => {
                    &&& link@.wf()
                    &&& link@.client == client
                    &&& link@.payer == payer
                    &&& link@.payer_pubkey == payer_pubkey
                    &&& link@.lookup_tables == match lookup_tables {
                        Some(tables) => tables_view(tables@),
                        None => Seq::empty(),
                    }
                    &&& link@.commitment_config == commitment_config
                    &&& link@.fee_cache.priority_fee == MIN_FEE
                    &&& link@.fee_cache.delta_s == 0
                },
            },
    {
        if payer.is_none() && payer_pubkey.is_none() {
            return Err(invalid_input("No payer nor payer_pubkey provided"));
        }
        let lookup_tables: Vec<AddressLookupTableAccount> = match lookup_tables {
            Some(tables) => tables,
            None => Vec::new(),
        };
        Ok(
            OrbitLink {
                client,
                payer,
                payer_pubkey,
                lookup_tables,
                commitment_config,
                fee_cache: FeeCache::new(),
            },
        )
    }

    /// Takes in the fee that the network asks for and the median fee paid of late,
    /// `elapsed_s` seconds after the link was made. What could not be fetched counts
    /// as zero.
    pub fn refresh_fee_cache<C, D>(
        &mut self,
        solana_min_fee: Result<u64, C>,
        solana_compass_median_fee: Result<u64, D>,
        elapsed_s: u64,
    )
        requires
            solana_compass_median_fee matches Ok(median) ==> median * 95 <= u64::MAX,
        ensures
            final(self)@.client == old(self)@.client,
            final(self)@.payer == old(self)@.payer,
            final(self)@.payer_pubkey == old(self)@.payer_pubkey,
            final(self)@.lookup_tables == old(self)@.lookup_tables,
            final(self)@.commitment_config == old(self)@.commitment_config,
            final(self)@.fee_cache.priority_fee == recommended_fee(
                fetched_or_zero(solana_min_fee),
                fetched_or_zero(solana_compass_median_fee),
            ),
            final(self)@.fee_cache.delta_s == elapsed_s,
            final(self)@.fee_cache.wf(),
            old(self)@.wf() ==> final(self)@.wf(),
    {
        self.fee_cache.refresh_fetched(solana_min_fee, solana_compass_median_fee, elapsed_s);
    }

    /// Says whether the cached fee has to be refreshed, `elapsed_s` seconds after the
    /// link was made.
    pub fn refresh_fee_cache_if_needed(&self, elapsed_s: u64) -> (refresh: FeeRefresh)
        requires
            self@.fee_cache.delta_s <= elapsed_s,
        ensures
            refresh == needed_refresh(self@.fee_cache, elapsed_s),
    {
        self.fee_cache.needs_refresh(elapsed_s)
    }

    /// The cached fee.
    pub fn get_recommended_micro_lamport_fee(&self) -> (fee: u64)
        ensures
            fee == self@.fee_cache.priority_fee,
    {
        self.fee_cache.priority_fee
    }

    /// The commitment at which transactions are confirmed.
    pub fn commitment_config(&self) -> (config: CommitmentConfig)
        ensures
            config == self@.commitment_config,
    {
        self.commitment_config
    }

    /// The key of the payer; `pubkey_of` gives the key of a signer.
    pub fn payer_pubkey<F: Fn(&S) -> Pubkey>(&self, pubkey_of: F) -> (key: Pubkey)
        requires
            self@.wf(),
            self@.knows_key(pubkey_of),
        ensures
            self@.is_payer_key(pubkey_of, key),
    {
        match &self.payer {
            Some(payer) => pubkey_of(payer),
            None => self.payer_pubkey.unwrap(),
        }
    }

    /// The payer, if one signs.
    pub fn payer(&self) -> (payer: Result<&S, ErrorKind>)
        ensures
            match self@.payer {
                Some(signer) => payer matches Ok(found) && *found == signer,
                None => payer matches Err(error) && error.is_invalid_input("No payer provided"@),
            },
    {
        match &self.payer {
            Some(payer) => Ok(payer),
            None => Err(invalid_input("No payer provided")),
        }
    }

    /// Adds a lookup table for the transactions to come.
    pub fn add_lookup_table(&mut self, table: AddressLookupTableAccount)
        ensures
            final(self)@ == old(self)@.with_lookup_table(table@),
    {
        self.lookup_tables.push(table);
        assert(self@.lookup_tables == old(self)@.lookup_tables.push(table@));
    }

    /// The instruction by which the payer creates an account of `space` bytes for
    /// the program `new_owner`. `rent` is the balance that exempts such an account
    /// from rent, or the client's error.
    pub fn create_account_ix<C, F: Fn(&S) -> Pubkey>(
        &self,
        account_to_create: &Pubkey,
        space: usize,
        new_owner: &Pubkey,
        rent: Result<u64, C>,
        pubkey_of: F,
    ) -> (instruction: Result<Instruction, C>)
        requires
            self@.wf(),
            self@.knows_key(pubkey_of),
        ensures
            match rent {
                Err(error) => instruction matches Err(reason) && reason == error,
                Ok(lamports) => instruction matches Ok(created) && exists|key: Pubkey|
                    self@.is_payer_key(pubkey_of, key) && created@
                        == #[trigger] create_account_instruction(
                        key.0@,
                        account_to_create.0@,
                        lamports,
                        space as u64,
                        new_owner.0@,
                    ),
            },
    {
        let key = self.payer_pubkey(pubkey_of);
        match rent {
            Err(error) => Err(error),
            Ok(lamports) => Ok(
                create_account(&key, account_to_create, lamports, space as u64, new_owner),
            ),
        }
    }

    /// Compiles the message of a transaction that the payer signs. `blockhash` is a
    /// recent one, or the client's error.
    pub fn create_tx<C, F: Fn(&S) -> Pubkey>(
        &self,
        instructions: &Vec<Instruction>,
        blockhash: Result<Blockhash, C>,
        pubkey_of: F,
    ) -> (message: Result<Message, Failure<C>>)
        requires
            self@.knows_key(pubkey_of),
        ensures
            self@.creates(
                self@.lookup_tables,
                instructions_view(instructions@),
                blockhash,
                pubkey_of,
                message,
            ),
    {
        match &self.payer {
            None => Err(Failure::Link(invalid_input("No payer provided"))),
            Some(payer) => match blockhash {
                Err(error) => Err(Failure::Client(error)),
                Ok(blockhash) => {
                    let key = pubkey_of(payer);
                    compile(&key, instructions, &self.lookup_tables, &blockhash)
                },
            },
        }
    }

    /// Compiles the message of a transaction that the payer signs, with more lookup
    /// tables than those of the link.
    pub fn create_tx_with_extra_lookup_tables<C, F: Fn(&S) -> Pubkey>(
        &self,
        instructions: &Vec<Instruction>,
        lookup_tables_extra: &Vec<AddressLookupTableAccount>,
        blockhash: Result<Blockhash, C>,
        pubkey_of: F,
    ) -> (message: Result<Message, Failure<C>>)
        requires
            self@.knows_key(pubkey_of),
        ensures
            self@.creates(
                self@.lookup_tables + tables_view(lookup_tables_extra@),
                instructions_view(instructions@),
                blockhash,
                pubkey_of,
                message,
            ),
    {
        match &self.payer {
            None => Err(Failure::Link(invalid_input("No payer provided"))),
            Some(payer) => match blockhash {
                Err(error) => Err(Failure::Client(error)),
                Ok(blockhash) => {
                    let lookup_tables = join_tables(&self.lookup_tables, lookup_tables_extra);
                    let key = pubkey_of(payer);
                    compile(&key, instructions, &lookup_tables, &blockhash)
                },
            },
        }
    }

    /// Starts to send `count` transactions, which the nodes retry, and to confirm
    /// them at the link's commitment with at most `nb_attempts` attempts.
    pub fn send_and_confirm_transactions<E, C>(
        &self,
        count: usize,
        nb_attempts: usize,
        pacing: Pacing,
    ) -> (started: (Session<E>, Action<C>))
        ensures
            started.0@ == SessionState::<E>::starting(
                count as nat,
                None,
                nb_attempts as nat,
                self@.commitment_config,
                pacing,
            ),
            started.0@.wf(),
            started.1@ == ActionView::<C>::SendAll(SendMode::NodeRetries),
    {
        Session::send_and_confirm(count, self.commitment_config, nb_attempts, pacing)
    }

    /// Starts to send one transaction, which the nodes retry, and to confirm it.
    pub fn send_and_confirm_transaction<E, C>(&self, nb_attempts: usize, pacing: Pacing) -> (started:
        (Session<E>, Action<C>))
        ensures
            started.0@ == SessionState::<E>::starting(
                1,
                None,
                nb_attempts as nat,
                self@.commitment_config,
                pacing,
            ),
            started.0@.wf(),
            started.1@ == ActionView::<C>::SendAll(SendMode::NodeRetries),
    {
        self.send_and_confirm_transactions(1, nb_attempts, pacing)
    }

    /// Starts to send a group of transactions with a local retry loop and to confirm
    /// them at the link's commitment. `recent_blockhashes` has the blockhash of each
    /// transaction: the first stands for all of them, and without one there is
    /// nothing to send. The transactions are sent again until they are confirmed, the
    /// blockhash is no longer valid or the time is up. `timeout_ns` is the longest time
    /// to wait, in nanoseconds; without it the default holds. `skip_all_preflights` leaves out all
    /// simulations.
    pub fn send_retry_and_confirm_transactions<E, C>(
        &self,
        recent_blockhashes: &Vec<Blockhash>,
        timeout_ns: Option<u128>,
        skip_all_preflights: bool,
        pacing: Pacing,
    ) -> (started: Result<(Session<E>, Action<C>), ErrorKind>)
        ensures
            match started {
                Err(error) => {
                    &&& recent_blockhashes@.len() == 0
                    &&& error == ErrorKind::NoTransactions
                },
                Ok((session, action)) => {
                    &&& recent_blockhashes@.len() > 0
                    &&& session@ == SessionState::<E>::starting(
                        recent_blockhashes@.len(),
                        Some(retry_plan(recent_blockhashes@[0], timeout_ns, pacing)),
                        0,
                        self@.commitment_config,
                        pacing,
                    )
                    &&& session@.wf()
                    &&& action@ == ActionView::<C>::SendAll(first_send_mode(skip_all_preflights))
                },
            },
    {
        Session::send_retry_and_confirm(
            recent_blockhashes,
            timeout_ns,
            skip_all_preflights,
            self.commitment_config,
            pacing,
        )
    }

    /// Starts to send one transaction, made under `recent_blockhash`, with a local
    /// retry loop and to confirm it.
    pub fn send_retry_and_confirm_transaction<E, C>(
        &self,
        recent_blockhash: Blockhash,
        timeout_ns: Option<u128>,
        skip_preflight: bool,
        pacing: Pacing,
    ) -> (started: (Session<E>, Action<C>))
        ensures
            started.0@ == SessionState::<E>::starting(
                1,
                Some(retry_plan(recent_blockhash, timeout_ns, pacing)),
                0,
                self@.commitment_config,
                pacing,
            ),
            started.0@.wf(),
            started.1@ == ActionView::<C>::SendAll(first_send_mode(skip_preflight)),
    {
        Session::retry_and_confirm(
            1,
            recent_blockhash,
            timeout_ns,
            skip_preflight,
            self.commitment_config,
            pacing,
        )
    }
}

/// Without extra lookup tables a transaction comes out the same as with none given.
pub proof fn no_extra_tables_change_nothing<T, S, C, F: Fn(&S) -> Pubkey>(
    link: LinkView<T, S>,
    instructions: Seq<InstructionView>,
    blockhash: Result<Blockhash, C>,
    pubkey_of: F,
    outcome: Result<Message, Failure<C>>,
)
    ensures
        link.creates(
            link.lookup_tables + Seq::<LookupTableView>::empty(),
            instructions,
            blockhash,
            pubkey_of,
            outcome,
        ) == link.creates(link.lookup_tables, instructions, blockhash, pubkey_of, outcome),
{
    assert(link.lookup_tables + Seq::<LookupTableView>::empty() == link.lookup_tables);
}

/// A table that was added to the link serves as one that is given as an extra.
pub proof fn added_table_serves_as_extra<T, S, C, F: Fn(&S) -> Pubkey>(
    link: LinkView<T, S>,
    table: LookupTableView,
    instructions: Seq<InstructionView>,
    blockhash: Result<Blockhash, C>,
    pubkey_of: F,
    outcome: Result<Message, Failure<C>>,
)
    ensures
        link.with_lookup_table(table).creates(
            link.with_lookup_table(table).lookup_tables,
            instructions,
            blockhash,
            pubkey_of,
            outcome,
        ) == link.creates(
            link.lookup_tables + seq![table],
            instructions,
            blockhash,
            pubkey_of,
            outcome,
        ),
        link.wf() ==> link.with_lookup_table(table).wf(),
{
    assert(link.lookup_tables + seq![table] == link.lookup_tables.push(table));
}

/// The key that was given does not matter where the payer signs.
pub proof fn signer_comes_before_key<T, S, F: Fn(&S) -> Pubkey>(
    link: LinkView<T, S>,
    other: Option<Pubkey>,
    pubkey_of: F,
    key: Pubkey,
)
    requires
        link.payer is Some,
    ensures
        link.is_payer_key(pubkey_of, key) == (LinkView { payer_pubkey: other, ..link }).is_payer_key(
            pubkey_of,
            key,
        ),
{
}

} // verus!
