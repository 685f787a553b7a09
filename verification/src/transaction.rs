//! Instructions and the messages that are compiled from them.
use vstd::prelude::*;

use solana_message::v0::Message;
use solana_message::CompileError;

use crate::errors::{ErrorKind, Failure};
use crate::types::{AccountMeta, AddressLookupTableAccount, Blockhash, Instruction, Pubkey};
#[allow(unused_imports)]
use crate::types::{
    instructions_view, tables_view, AccountMetaView, InstructionView, LookupTableView,
};

verus! {

/// A compiled message, kept as it came: what is left to do is to sign it.
#[verifier::external_type_specification]
#[verifier::external_body]
pub struct ExMessage(solana_message::v0::Message);

/// What `solana_message::v0::Message::try_compile` makes of a payer, instructions,
/// lookup tables and a recent blockhash.
pub uninterp spec fn compiled_message(
    payer: Seq<u8>,
    instructions: Seq<InstructionView>,
    lookup_tables: Seq<LookupTableView>,
    blockhash: Seq<u8>,
) -> Result<Message, CompileError>;

/// Calls `solana_message::v0::Message::try_compile`. The contract claims no more
/// than that its result is a function of what it is given; the result has the name
/// `compiled_message`.
#[verifier::external_body]
fn try_compile(
    payer: &Pubkey,
    instructions: &Vec<Instruction>,
    lookup_tables: &Vec<AddressLookupTableAccount>,
    blockhash: &Blockhash,
) -> (compiled: Result<Message, CompileError>)
    ensures
        compiled == compiled_message(
            payer.0@,
            instructions_view(instructions@),
            tables_view(lookup_tables@),
            blockhash.0@,
        ),
{
    let instructions: Vec<_> = instructions.iter().map(|instruction| solana_instruction::Instruction {
        program_id: instruction.program_id.0.into(),
        accounts: instruction.accounts.iter().map(|meta| solana_instruction::AccountMeta {
            pubkey: meta.pubkey.0.into(), is_signer: meta.is_signer, is_writable: meta.is_writable,
        }).collect(),
        data: instruction.data.clone(),
    }).collect();
    let tables: Vec<_> = lookup_tables.iter().map(|table| solana_message::AddressLookupTableAccount {
        key: table.key.0.into(), addresses: table.addresses.iter().map(|address| address.0.into()).collect(),
    }).collect();
    Message::try_compile(&payer.0.into(), &instructions, &tables, blockhash.0.into())
}

/// The low `width` bytes of `n`, the lowest first.
pub open spec fn little_endian(n: nat, width: nat) -> Seq<u8>
    decreases width,
{
    if width == 0 {
        Seq::empty()
    } else {
        seq![(n % 256) as u8] + little_endian(n / 256, (width - 1) as nat)
    }
}

/// The instruction that creates the account `to` for the program `owner`, with
/// `space` bytes and a balance of `lamports` taken from `from`. It calls the system
/// program, whose address is all zeros; both accounts sign and are written to. Its
/// data are the variant's number in four bytes, the balance and the space in eight
/// bytes each, and the owner.
pub open spec fn create_account_instruction(
    from: Seq<u8>,
    to: Seq<u8>,
    lamports: u64,
    space: u64,
    owner: Seq<u8>,
) -> InstructionView {
    InstructionView {
        program_id: Seq::new(32, |i: int| 0u8),
        accounts: seq![
            AccountMetaView { pubkey: from, is_signer: true, is_writable: true },
            AccountMetaView { pubkey: to, is_signer: true, is_writable: true },
        ],
        data: little_endian(0, 4) + little_endian(lamports as nat, 8) + little_endian(
            space as nat,
            8,
        ) + owner,
    }
}

/// Calls `solana_system_interface::instruction::create_account`. The contract
/// claims that it returns the instruction that `create_account_instruction`
/// describes.
#[verifier::external_body]
pub(crate) fn create_account(
    from: &Pubkey,
    to: &Pubkey,
    lamports: u64,
    space: u64,
    owner: &Pubkey,
) -> (instruction: Instruction)
    ensures
        instruction@ == create_account_instruction(from.0@, to.0@, lamports, space, owner.0@),
{
    let instruction = solana_system_interface::instruction::create_account(
        &from.0.into(), &to.0.into(), lamports, space, &owner.0.into(),
    );
    Instruction {
        program_id: Pubkey(instruction.program_id.to_bytes()),
        accounts: instruction.accounts.iter().map(|meta| AccountMeta {
            pubkey: Pubkey(meta.pubkey.to_bytes()), is_signer: meta.is_signer, is_writable: meta.is_writable,
        }).collect(),
        data: instruction.data,
    }
}

/// Hands on a compiled message, or reports why there is none.
pub fn message_or_failure<C>(
    compiled: Result<Message, CompileError>,
) -> (outcome: Result<Message, Failure<C>>)
    ensures
        outcome == message_outcome::<C>(compiled),
{
    match compiled {
        Ok(message) => Ok(message),
        Err(error) => Err(Failure::Link(ErrorKind::CompileError(error))),
    }
}

/// A compiled message, or the failure to compile it.
pub open spec fn message_outcome<C>(
    compiled: Result<Message, CompileError>,
) -> Result<Message, Failure<C>> {
    match compiled {
        Ok(message) => Ok(message),
        Err(error) => Err(Failure::Link(ErrorKind::CompileError(error))),
    }
}

/// Compiles instructions into a message.
pub(crate) fn compile<C>(
    payer: &Pubkey,
    instructions: &Vec<Instruction>,
    lookup_tables: &Vec<AddressLookupTableAccount>,
    blockhash: &Blockhash,
) -> (outcome: Result<Message, Failure<C>>)
    ensures
        outcome == message_outcome::<C>(
            compiled_message(
                payer.0@,
                instructions_view(instructions@),
                tables_view(lookup_tables@),
                blockhash.0@,
            ),
        ),
{
    message_or_failure(try_compile(payer, instructions, lookup_tables, blockhash))
}

/// Those who sign a transaction: the payer first, then the extra signers in order.
pub fn signing_order<X: Copy>(payer: X, extra_signers: &[X]) -> (signers: Vec<X>)
    ensures
        signers@ == seq![payer] + extra_signers@,
{
    let mut signers: Vec<X> = Vec::new();
    signers.push(payer);
    for i in 0..extra_signers.len()
        invariant
            signers@ == seq![payer] + extra_signers@.take(i as int),
    {
        signers.push(extra_signers[i]);
        assert(signers@ == seq![payer] + extra_signers@.take(i + 1));
    }
    assert(extra_signers@.take(extra_signers@.len() as int) == extra_signers@);
    signers
}

/// Appends copies of the tables in `extra`.
fn append_tables(
    tables: &mut Vec<AddressLookupTableAccount>,
    extra: &Vec<AddressLookupTableAccount>,
)
    ensures
        tables_view(final(tables)@) == tables_view(old(tables)@) + tables_view(extra@),
{
    let ghost start = tables_view(tables@);
    assert(start == start + tables_view(extra@).take(0));
    for i in 0..extra.len()
        invariant
            tables_view(tables@) == start + tables_view(extra@).take(i as int),
    {
        let ghost before = tables@;
        let table = extra[i].clone();
        tables.push(table);
        assert(tables_view(tables@) == tables_view(before).push(table@));
        assert(tables_view(extra@).take(i + 1) == tables_view(extra@).take(i as int).push(
            extra@[i as int]@,
        ));
        assert(tables_view(tables@) == start + tables_view(extra@).take(i + 1));
    }
    assert(tables_view(extra@).take(extra@.len() as int) == tables_view(extra@));
}

/// The tables of both lists, those of `extra` last.
pub(crate) fn join_tables(
    tables: &Vec<AddressLookupTableAccount>,
    extra: &Vec<AddressLookupTableAccount>,
) -> (joined: Vec<AddressLookupTableAccount>)
    ensures
        tables_view(joined@) == tables_view(tables@) + tables_view(extra@),
{
    let mut joined: Vec<AddressLookupTableAccount> = Vec::new();
    append_tables(&mut joined, tables);
    append_tables(&mut joined, extra);
    joined
}

} // verus!
