//! What a link does for its payer: keys, fees, accounts, transactions and sessions.
use vstd::prelude::*;

use solana_message::v0::Message;
use solana_message::CompileError;

use crate::errors::{ErrorKind, Failure, SignerError};
use crate::fees::FeeRefresh;
use crate::link::OrbitLink;
use crate::promises::fees::is_least_sufficient;
use crate::session::{Action, Pacing, Phase, SendMode, Session};
use crate::transaction::{
    compiled_message, create_account_instruction, little_endian, message_or_failure, signing_order,
};
use crate::types::{
    instructions_view, tables_view, AccountMetaView, AddressLookupTableAccount, Blockhash,
    CommitmentConfig, Instruction, InstructionView, LookupTableView, Pubkey,
};

verus! {

/// Whether `view` holds all of an instruction: its program, its accounts in order with
/// what may be done to them, and its data.
pub open spec fn holds_instruction(view: InstructionView, instruction: Instruction) -> bool {
    &&& view.program_id == instruction.program_id.0@
    &&& view.data == instruction.data@
    &&& view.accounts.len() == instruction.accounts@.len()
    &&& forall|j: int|
        0 <= j < instruction.accounts@.len() ==> {
            &&& (#[trigger] view.accounts[j]).pubkey == instruction.accounts@[j].pubkey.0@
            &&& view.accounts[j].is_signer == instruction.accounts@[j].is_signer
            &&& view.accounts[j].is_writable == instruction.accounts@[j].is_writable
        }
}

/// Whether `views` hold all of the instructions, in order.
pub open spec fn holds_instructions(
    views: Seq<InstructionView>,
    instructions: Seq<Instruction>,
) -> bool {
    &&& views.len() == instructions.len()
    &&& forall|i: int|
        0 <= i < instructions.len() ==> holds_instruction(#[trigger] views[i], instructions[i])
}

/// Whether `view` holds all of a lookup table: its key and its addresses in order.
pub open spec fn holds_table(view: LookupTableView, table: AddressLookupTableAccount) -> bool {
    &&& view.key == table.key.0@
    &&& view.addresses.len() == table.addresses@.len()
    &&& forall|j: int|
        0 <= j < table.addresses@.len() ==> (#[trigger] view.addresses[j])
            == table.addresses@[j].0@
}

/// Whether `views` hold all of the lookup tables, in order.
pub open spec fn holds_tables(
    views: Seq<LookupTableView>,
    tables: Seq<AddressLookupTableAccount>,
) -> bool {
    &&& views.len() == tables.len()
    &&& forall|i: int| 0 <= i < tables.len() ==> holds_table(#[trigger] views[i], tables[i])
}

/// The view of an instruction, and of one among others, holds each part of it.
pub proof fn instruction_view_holds_all(instructions: Seq<Instruction>, i: int, j: int)
    requires
        0 <= i < instructions.len(),
    ensures
        instructions_view(instructions).len() == instructions.len(),
        instructions_view(instructions)[i].program_id == instructions[i].program_id.0@,
        instructions_view(instructions)[i].data == instructions[i].data@,
        instructions_view(instructions)[i].accounts.len() == instructions[i].accounts@.len(),
        0 <= j < instructions[i].accounts@.len() ==> {
            let view = instructions_view(instructions)[i].accounts[j];
            &&& view.pubkey == instructions[i].accounts@[j].pubkey.0@
            &&& view.is_signer == instructions[i].accounts@[j].is_signer
            &&& view.is_writable == instructions[i].accounts@[j].is_writable
        },
{
}

/// The view of a lookup table, and of one among others, holds each part of it.
pub proof fn table_view_holds_all(tables: Seq<AddressLookupTableAccount>, i: int, j: int)
    requires
        0 <= i < tables.len(),
    ensures
        tables_view(tables).len() == tables.len(),
        tables_view(tables)[i].key == tables[i].key.0@,
        tables_view(tables)[i].addresses.len() == tables[i].addresses@.len(),
        0 <= j < tables[i].addresses@.len() ==> tables_view(tables)[i].addresses[j]
            == tables[i].addresses@[j].0@,
{
}

/// Views leave nothing out: they are fixed by what instructions hold.
pub proof fn instruction_views_are_exact(
    views: Seq<InstructionView>,
    instructions: Seq<Instruction>,
)
    ensures
        holds_instructions(instructions_view(instructions), instructions),
        holds_instructions(views, instructions) ==> views == instructions_view(instructions),
{
    assert forall|i: int| 0 <= i < instructions.len() implies holds_instruction(
        #[trigger] instructions_view(instructions)[i],
        instructions[i],
    ) by {
        assert(instructions_view(instructions)[i] == instructions[i]@);
    }
    if holds_instructions(views, instructions) {
        assert forall|i: int| 0 <= i < views.len() implies views[i] == instructions_view(
            instructions,
        )[i] by {
            assert(holds_instruction(views[i], instructions[i]));
            assert(views[i].accounts =~= instructions[i]@.accounts) by {
                assert forall|j: int| 0 <= j < views[i].accounts.len() implies views[i].accounts[j]
                    == instructions[i]@.accounts[j] by {
                    let view: AccountMetaView = views[i].accounts[j];
                    assert(view.pubkey == instructions[i].accounts@[j].pubkey.0@);
                    assert(instructions[i]@.accounts[j] == instructions[i].accounts@[j]@);
                }
            }
            assert(views[i] == instructions[i]@);
        }
        assert(views =~= instructions_view(instructions));
    }
}

/// Views leave nothing out: they are fixed by what lookup tables hold.
pub proof fn table_views_are_exact(
    views: Seq<LookupTableView>,
    tables: Seq<AddressLookupTableAccount>,
)
    ensures
        holds_tables(tables_view(tables), tables),
        holds_tables(views, tables) ==> views == tables_view(tables),
{
    assert forall|i: int| 0 <= i < tables.len() implies holds_table(
        #[trigger] tables_view(tables)[i],
        tables[i],
    ) by {
        assert(tables_view(tables)[i] == tables[i]@);
    }
    if holds_tables(views, tables) {
        assert forall|i: int| 0 <= i < views.len() implies views[i] == tables_view(tables)[i] by {
            assert(holds_table(views[i], tables[i]));
            assert(views[i].addresses =~= tables[i]@.addresses);
            assert(views[i] == tables[i]@);
        }
        assert(views =~= tables_view(tables));
    }
}

/// A copy of a lookup table has the same key and the same addresses in order.
pub proof fn copied_table_is_the_same(
    table: &AddressLookupTableAccount,
    copy: AddressLookupTableAccount,
)
    requires
        call_ensures(AddressLookupTableAccount::clone, (table,), copy),
    ensures
        copy.key.0@ == table.key.0@,
        copy.addresses@.len() == table.addresses@.len(),
        forall|j: int|
            0 <= j < table.addresses@.len() ==> (#[trigger] copy.addresses@[j]).0@
                == table.addresses@[j].0@,
{
    assert(copy@.addresses.len() == copy.addresses@.len());
    assert forall|j: int| 0 <= j < table.addresses@.len() implies (
    #[trigger] copy.addresses@[j]).0@ == table.addresses@[j].0@ by {
        assert(copy@.addresses[j] == table@.addresses[j]);
    }
}

/// A link is refused exactly if it has neither a signer nor a key; otherwise it holds
/// what it was given, no more lookup tables than that, and the lowest fee.
pub proof fn new_link_is_exact<T, S>(
    client: T,
    payer: Option<S>,
    lookup_tables: Option<Vec<AddressLookupTableAccount>>,
    commitment_config: CommitmentConfig,
    payer_pubkey: Option<Pubkey>,
    link: Result<OrbitLink<T, S>, ErrorKind>,
)
    requires
        call_ensures(
            OrbitLink::<T, S>::new,
            (client, payer, lookup_tables, commitment_config, payer_pubkey),
            link,
        ),
    ensures
        link is Ok <==> payer is Some || payer_pubkey is Some,
        link matches Err(error) ==> (error matches ErrorKind::SignerError(
            SignerError::InvalidInput(text),
        ) && text@ == "No payer nor payer_pubkey provided"@),
        link matches Ok(made) ==> {
            &&& made@.client == client
            &&& made@.payer == payer
            &&& made@.payer_pubkey == payer_pubkey
            &&& made@.commitment_config == commitment_config
            &&& made@.fee_cache.priority_fee == 10_000
            &&& made@.fee_cache.delta_s == 0
            &&& lookup_tables is None ==> made@.lookup_tables.len() == 0
            &&& lookup_tables matches Some(tables) ==> holds_tables(
                made@.lookup_tables,
                tables@,
            )
        },
{
    if let Some(tables) = lookup_tables {
        table_views_are_exact(Seq::empty(), tables@);
    }
}

/// A refresh sets the fee to what it has to be and leaves everything else alone, and
/// that fee is the one recommended from then on.
pub proof fn refreshed_link_is_exact<T, S, C, D>(
    link: &mut OrbitLink<T, S>,
    solana_min_fee: Result<u64, C>,
    median_fee: Result<u64, D>,
    elapsed_s: u64,
    fee: u64,
)
    requires
        call_ensures(
            OrbitLink::<T, S>::refresh_fee_cache::<C, D>,
            (link, solana_min_fee, median_fee, elapsed_s),
            (),
        ),
        call_ensures(
            OrbitLink::<T, S>::get_recommended_micro_lamport_fee,
            (&*final(link),),
            fee,
        ),
    ensures
        match (solana_min_fee, median_fee) {
            (Ok(asked), Ok(median)) => is_least_sufficient(
                fee as int,
                asked as int,
                median as int,
            ),
            (Ok(asked), Err(_)) => is_least_sufficient(fee as int, asked as int, 0),
            (Err(_), Ok(median)) => is_least_sufficient(fee as int, 0, median as int),
            (Err(_), Err(_)) => fee == 10_000,
        },
        final(link)@.fee_cache.priority_fee == fee,
        final(link)@.fee_cache.delta_s == elapsed_s,
        final(link)@.client == old(link)@.client,
        final(link)@.payer == old(link)@.payer,
        final(link)@.payer_pubkey == old(link)@.payer_pubkey,
        final(link)@.lookup_tables == old(link)@.lookup_tables,
        final(link)@.commitment_config == old(link)@.commitment_config,
{
}

/// Between two refreshes lie sixty seconds; the fee and the commitment that are told
/// are those of the link.
pub proof fn link_tells_what_it_holds<T, S>(
    link: &OrbitLink<T, S>,
    elapsed_s: u64,
    refresh: FeeRefresh,
    fee: u64,
    config: CommitmentConfig,
)
    requires
        link@.fee_cache.delta_s <= elapsed_s,
        call_ensures(OrbitLink::<T, S>::refresh_fee_cache_if_needed, (link, elapsed_s), refresh),
        call_ensures(OrbitLink::<T, S>::get_recommended_micro_lamport_fee, (link,), fee),
        call_ensures(OrbitLink::<T, S>::commitment_config, (link,), config),
    ensures
        elapsed_s <= link@.fee_cache.delta_s + 60 ==> refresh == FeeRefresh::NotNeeded,
        elapsed_s > link@.fee_cache.delta_s + 60 ==> refresh == FeeRefresh::Needed,
        fee == link@.fee_cache.priority_fee,
        config == link@.commitment_config,
{
}

/// The payer's key is the signer's where there is a signer, else the key given; and
/// who is asked to sign is that signer, or nobody.
pub proof fn payer_is_exact<T, S, F: Fn(&S) -> Pubkey>(
    link: &OrbitLink<T, S>,
    pubkey_of: F,
    key: Pubkey,
    payer: Result<&S, ErrorKind>,
)
    requires
        call_ensures(OrbitLink::<T, S>::payer_pubkey::<F>, (link, pubkey_of), key),
        call_ensures(OrbitLink::<T, S>::payer, (link,), payer),
    ensures
        link@.payer matches Some(signer) ==> call_ensures(pubkey_of, (&signer,), key),
        link@.payer is None && link@.payer_pubkey is Some ==> key == link@.payer_pubkey->0,
        link@.payer matches Some(signer) ==> payer is Ok && *payer->Ok_0 == signer,
        link@.payer is None ==> (payer matches Err(ErrorKind::SignerError(
            SignerError::InvalidInput(text),
        )) && text@ == "No payer provided"@),
{
}

/// An added lookup table comes after all others, whole, and changes nothing else.
pub proof fn added_table_is_exact<T, S>(
    link: &mut OrbitLink<T, S>,
    table: AddressLookupTableAccount,
)
    requires
        call_ensures(OrbitLink::<T, S>::add_lookup_table, (link, table), ()),
    ensures
        final(link)@.lookup_tables.len() == old(link)@.lookup_tables.len() + 1,
        forall|i: int|
            0 <= i < old(link)@.lookup_tables.len() ==> (#[trigger] final(link)@.lookup_tables[i])
                == old(link)@.lookup_tables[i],
        holds_table(final(link)@.lookup_tables[old(link)@.lookup_tables.len() as int], table),
        final(link)@.client == old(link)@.client,
        final(link)@.payer == old(link)@.payer,
        final(link)@.payer_pubkey == old(link)@.payer_pubkey,
        final(link)@.commitment_config == old(link)@.commitment_config,
        final(link)@.fee_cache == old(link)@.fee_cache,
{
}

/// The number that eight bytes denote, the lowest first.
pub open spec fn number_at(data: Seq<u8>, start: int) -> int {
    data[start] + 0x100 * data[start + 1] + 0x1_0000 * data[start + 2] + 0x100_0000 * data[start
        + 3] + 0x1_0000_0000 * data[start + 4] + 0x100_0000_0000 * data[start + 5]
        + 0x1_0000_0000_0000 * data[start + 6] + 0x100_0000_0000_0000 * data[start + 7]
}

/// An account is created from the payer's balance: the system program is called, the
/// payer and the new account sign and are written to, and the data hold, after four
/// zero bytes, the rent, the space and the owner.
pub proof fn account_creation_is_exact<T, S, C, F: Fn(&S) -> Pubkey>(
    link: &OrbitLink<T, S>,
    account_to_create: &Pubkey,
    space: usize,
    new_owner: &Pubkey,
    rent: Result<u64, C>,
    pubkey_of: F,
    instruction: Result<Instruction, C>,
    key: Pubkey,
)
    requires
        call_ensures(
            OrbitLink::<T, S>::create_account_ix::<C, F>,
            (link, account_to_create, space, new_owner, rent, pubkey_of),
            instruction,
        ),
        match link@.payer {
            Some(signer) => forall|k: Pubkey| #[trigger]
                call_ensures(pubkey_of, (&signer,), k) ==> k == key,
            None => link@.payer_pubkey == Some(key),
        },
    ensures
        rent matches Err(error) ==> instruction == Err::<Instruction, C>(error),
        rent is Ok ==> instruction is Ok,
        rent matches Ok(lamports) ==> {
            let created = instruction->Ok_0;
            &&& created.program_id.0@.len() == 32
            &&& forall|j: int| 0 <= j < 32 ==> (#[trigger] created.program_id.0@[j]) == 0
            &&& created.accounts@.len() == 2
            &&& created.accounts@[0].pubkey.0@ == key.0@
            &&& created.accounts@[0].is_signer && created.accounts@[0].is_writable
            &&& created.accounts@[1].pubkey.0@ == account_to_create.0@
            &&& created.accounts@[1].is_signer && created.accounts@[1].is_writable
            &&& created.data@.len() == 52
            &&& created.data@[0] == 0 && created.data@[1] == 0 && created.data@[2] == 0
                && created.data@[3] == 0
            &&& number_at(created.data@, 4) == lamports
            &&& number_at(created.data@, 12) == space
            &&& created.data@.skip(20) == new_owner.0@
        },
{
    if let Ok(lamports) = rent {
        let created = instruction->Ok_0;
        let used = choose|k: Pubkey|
            link@.is_payer_key(pubkey_of, k) && created@
                == #[trigger] create_account_instruction(
                k.0@,
                account_to_create.0@,
                lamports,
                space as u64,
                new_owner.0@,
            );
        assert(used == key);
        assert(created@.accounts.len() == created.accounts@.len());
        assert(created@.accounts[0] == created.accounts@[0]@);
        assert(created@.accounts[1] == created.accounts@[1]@);
        assert forall|j: int| 0 <= j < 32 implies (#[trigger] created.program_id.0@[j]) == 0 by {
            assert(created@.program_id[j] == 0);
        }
        let zero = little_endian(0, 4);
        let balance = little_endian(lamports as nat, 8);
        let room = little_endian(space as u64 as nat, 8);
        four_bytes_of_zero();
        eight_bytes_read_back(lamports);
        eight_bytes_read_back(space as u64);
        assert(created.data@ == zero + balance + room + new_owner.0@);
        assert forall|j: int| 0 <= j < 8 implies created.data@[4 + j] == #[trigger] balance[j]
            && created.data@[12 + j] == room[j] by {}
        assert(created.data@[4] == balance[0] && created.data@[5] == balance[1]);
        assert(created.data@[6] == balance[2] && created.data@[7] == balance[3]);
        assert(created.data@[8] == balance[4] && created.data@[9] == balance[5]);
        assert(created.data@[10] == balance[6] && created.data@[11] == balance[7]);
        assert(created.data@[12] == room[0] && created.data@[13] == room[1]);
        assert(created.data@[14] == room[2] && created.data@[15] == room[3]);
        assert(created.data@[16] == room[4] && created.data@[17] == room[5]);
        assert(created.data@[18] == room[6] && created.data@[19] == room[7]);
        assert(created.data@.skip(20) =~= new_owner.0@);
    }
}

/// Zero in four bytes.
proof fn four_bytes_of_zero()
    ensures
        little_endian(0, 4).len() == 4,
        forall|j: int| 0 <= j < 4 ==> (#[trigger] little_endian(0, 4)[j]) == 0,
{
    reveal_with_fuel(little_endian, 5);
}

/// A number in eight bytes, the lowest first, reads back as itself.
proof fn eight_bytes_read_back(n: u64)
    ensures
        little_endian(n as nat, 8).len() == 8,
        number_at(little_endian(n as nat, 8), 0) == n,
{
    reveal_with_fuel(little_endian, 9);
    let bytes = little_endian(n as nat, 8);
    let n0 = n as nat;
    let n1 = n0 / 256;
    let n2 = n1 / 256;
    let n3 = n2 / 256;
    let n4 = n3 / 256;
    let n5 = n4 / 256;
    let n6 = n5 / 256;
    let n7 = n6 / 256;
    assert(n7 < 256);
    assert(bytes =~= seq![
        (n0 % 256) as u8,
        (n1 % 256) as u8,
        (n2 % 256) as u8,
        (n3 % 256) as u8,
        (n4 % 256) as u8,
        (n5 % 256) as u8,
        (n6 % 256) as u8,
        (n7 % 256) as u8,
    ]);
}

/// A message is handed on as it was compiled, and an error of compiling as that error.
pub proof fn compiled_message_is_handed_on<C>(
    compiled: Result<Message, CompileError>,
    outcome: Result<Message, Failure<C>>,
)
    requires
        call_ensures(message_or_failure::<C>, (compiled,), outcome),
    ensures
        compiled matches Ok(message) ==> outcome == Ok::<Message, Failure<C>>(message),
        compiled matches Err(error) ==> outcome == Err::<Message, Failure<C>>(
            Failure::Link(ErrorKind::CompileError(error)),
        ),
{
}

/// A transaction is compiled from all of the instructions given, in order and however
/// many they are, with the signer as its payer, all lookup tables of the link and the
/// blockhash given. Without a signer, or without a blockhash, there is none.
pub proof fn transaction_is_exact<T, S, C, F: Fn(&S) -> Pubkey>(
    link: &OrbitLink<T, S>,
    instructions: &Vec<Instruction>,
    blockhash: Result<Blockhash, C>,
    pubkey_of: F,
    message: Result<Message, Failure<C>>,
    key: Pubkey,
    views: Seq<InstructionView>,
)
    requires
        call_ensures(
            OrbitLink::<T, S>::create_tx::<C, F>,
            (link, instructions, blockhash, pubkey_of),
            message,
        ),
        link@.payer matches Some(signer) ==> forall|k: Pubkey| #[trigger]
            call_ensures(pubkey_of, (&signer,), k) ==> k == key,
        holds_instructions(views, instructions@),
    ensures
        link@.payer is None ==> (message matches Err(Failure::Link(ErrorKind::SignerError(
            SignerError::InvalidInput(text),
        ))) && text@ == "No payer provided"@),
        link@.payer is Some ==> match blockhash {
            Err(error) => message == Err::<Message, Failure<C>>(Failure::Client(error)),
            Ok(hash) => match compiled_message(key.0@, views, link@.lookup_tables, hash.0@) {
                Ok(compiled) => message == Ok::<Message, Failure<C>>(compiled),
                Err(error) => message == Err::<Message, Failure<C>>(
                    Failure::Link(ErrorKind::CompileError(error)),
                ),
            },
        },
{
    instruction_views_are_exact(views, instructions@);
}

/// With extra lookup tables a transaction is compiled just so, from the tables of the
/// link and the extra ones after them, all of them and in order.
pub proof fn transaction_with_extra_tables_is_exact<T, S, C, F: Fn(&S) -> Pubkey>(
    link: &OrbitLink<T, S>,
    instructions: &Vec<Instruction>,
    lookup_tables_extra: &Vec<AddressLookupTableAccount>,
    blockhash: Result<Blockhash, C>,
    pubkey_of: F,
    message: Result<Message, Failure<C>>,
    key: Pubkey,
    views: Seq<InstructionView>,
    extra: Seq<LookupTableView>,
)
    requires
        call_ensures(
            OrbitLink::<T, S>::create_tx_with_extra_lookup_tables::<C, F>,
            (link, instructions, lookup_tables_extra, blockhash, pubkey_of),
            message,
        ),
        link@.payer matches Some(signer) ==> forall|k: Pubkey| #[trigger]
            call_ensures(pubkey_of, (&signer,), k) ==> k == key,
        holds_instructions(views, instructions@),
        holds_tables(extra, lookup_tables_extra@),
    ensures
        link@.payer is None ==> (message matches Err(Failure::Link(ErrorKind::SignerError(
            SignerError::InvalidInput(text),
        ))) && text@ == "No payer provided"@),
        link@.payer is Some ==> match blockhash {
            Err(error) => message == Err::<Message, Failure<C>>(Failure::Client(error)),
            Ok(hash) => match compiled_message(
                key.0@,
                views,
                link@.lookup_tables + extra,
                hash.0@,
            ) {
                Ok(compiled) => message == Ok::<Message, Failure<C>>(compiled),
                Err(error) => message == Err::<Message, Failure<C>>(
                    Failure::Link(ErrorKind::CompileError(error)),
                ),
            },
        },
{
    instruction_views_are_exact(views, instructions@);
    table_views_are_exact(extra, lookup_tables_extra@);
}

/// The payer signs first, and then every extra signer in order.
pub proof fn signing_order_is_exact<X: Copy>(payer: X, extra_signers: &[X], signers: Vec<X>)
    requires
        call_ensures(signing_order::<X>, (payer, extra_signers), signers),
    ensures
        signers@.len() == extra_signers@.len() + 1,
        signers@[0] == payer,
        forall|i: int|
            0 <= i < extra_signers@.len() ==> signers@[i + 1] == #[trigger] extra_signers@[i],
{
}

/// Transactions that the nodes retry are confirmed at the commitment of the link, with
/// the attempts given; one transaction is sent as a group of one.
pub proof fn link_starts_plain_sessions<T, S, E, C>(
    link: &OrbitLink<T, S>,
    count: usize,
    nb_attempts: usize,
    pacing: Pacing,
    group: (Session<E>, Action<C>),
    single: (Session<E>, Action<C>),
)
    requires
        call_ensures(
            OrbitLink::<T, S>::send_and_confirm_transactions::<E, C>,
            (link, count, nb_attempts, pacing),
            group,
        ),
        call_ensures(
            OrbitLink::<T, S>::send_and_confirm_transaction::<E, C>,
            (link, nb_attempts, pacing),
            single,
        ),
    ensures
        group.1 == Action::<C>::SendAll(SendMode::NodeRetries),
        group.0@.phase == Phase::Sending,
        group.0@.plan is None,
        group.0@.level == link@.commitment_config,
        group.0@.level.commitment == link@.commitment_config.commitment,
        group.0@.count == count,
        group.0@.attempts_left == nb_attempts,
        group.0@.entries.len() == 0,
        group.0@.pacing == pacing,
        single.1 == Action::<C>::SendAll(SendMode::NodeRetries),
        single.0@.phase == Phase::Sending,
        single.0@.plan is None,
        single.0@.level == link@.commitment_config,
        single.0@.level.commitment == link@.commitment_config.commitment,
        single.0@.count == 1,
        single.0@.attempts_left == nb_attempts,
        single.0@.entries.len() == 0,
        single.0@.pacing == pacing,
{
}

/// Retried transactions are confirmed at the commitment of the link, under the first
/// one's blockhash, within the timeout given or the default one; a group without a
/// transaction is refused.
pub proof fn link_starts_retried_groups<T, S, E, C>(
    link: &OrbitLink<T, S>,
    recent_blockhashes: &Vec<Blockhash>,
    timeout_ns: Option<u128>,
    skip_all_preflights: bool,
    pacing: Pacing,
    started: Result<(Session<E>, Action<C>), ErrorKind>,
)
    requires
        call_ensures(
            OrbitLink::<T, S>::send_retry_and_confirm_transactions::<E, C>,
            (link, recent_blockhashes, timeout_ns, skip_all_preflights, pacing),
            started,
        ),
    ensures
        recent_blockhashes@.len() == 0 ==> started is Err && started->Err_0
            == ErrorKind::NoTransactions,
        recent_blockhashes@.len() > 0 ==> started is Ok,
        started matches Ok((session, action)) ==> {
            &&& skip_all_preflights ==> action == Action::<C>::SendAll(SendMode::NoRetryNoPreflight)
            &&& !skip_all_preflights ==> action == Action::<C>::SendAll(SendMode::NoRetry)
            &&& session@.phase == Phase::Sending
            &&& session@.plan is Some
            &&& session@.plan->0.blockhash == recent_blockhashes@[0]
            &&& timeout_ns matches Some(timeout) ==> session@.plan->0.timeout_ns == timeout
            &&& timeout_ns is None ==> session@.plan->0.timeout_ns == pacing.max_timeout_tx_send_ms
                * 1_000_000
            &&& session@.level == link@.commitment_config
            &&& session@.level.commitment == link@.commitment_config.commitment
            &&& session@.count == recent_blockhashes@.len()
            &&& session@.entries.len() == 0
            &&& session@.pacing == pacing
        },
{
}

/// One retried transaction is sent as a group of one.
pub proof fn link_starts_retried_transaction<T, S, E, C>(
    link: &OrbitLink<T, S>,
    recent_blockhash: Blockhash,
    timeout_ns: Option<u128>,
    skip_preflight: bool,
    pacing: Pacing,
    started: (Session<E>, Action<C>),
)
    requires
        call_ensures(
            OrbitLink::<T, S>::send_retry_and_confirm_transaction::<E, C>,
            (link, recent_blockhash, timeout_ns, skip_preflight, pacing),
            started,
        ),
    ensures
        skip_preflight ==> started.1 == Action::<C>::SendAll(SendMode::NoRetryNoPreflight),
        !skip_preflight ==> started.1 == Action::<C>::SendAll(SendMode::NoRetry),
        started.0@.phase == Phase::Sending,
        started.0@.plan is Some,
        started.0@.plan->0.blockhash == recent_blockhash,
        timeout_ns matches Some(timeout) ==> started.0@.plan->0.timeout_ns == timeout,
        timeout_ns is None ==> started.0@.plan->0.timeout_ns == pacing.max_timeout_tx_send_ms
            * 1_000_000,
        started.0@.level == link@.commitment_config,
        started.0@.level.commitment == link@.commitment_config.commitment,
        started.0@.count == 1,
        started.0@.entries.len() == 0,
        started.0@.pacing == pacing,
{
}

} // verus!
