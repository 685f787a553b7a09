//! The plain values that the library computes with: keys, hashes, signatures,
//! instructions, lookup tables and commitment levels.
use vstd::prelude::*;

verus! {

/// The address of an account: 32 bytes.
#[derive(Clone, Copy, Debug, PartialEq, Eq)]
pub struct Pubkey(pub [u8; 32]);

/// A transaction signature: 64 bytes.
#[derive(Clone, Copy, Debug, PartialEq, Eq)]
pub struct Signature(pub [u8; 64]);

/// A blockhash: 32 bytes.
#[derive(Clone, Copy, Debug, PartialEq, Eq)]
pub struct Blockhash(pub [u8; 32]);

/// How settled a block has to be.
#[derive(Clone, Copy, Debug, PartialEq, Eq, Structural)]
pub enum CommitmentLevel {
    Processed,
    Confirmed,
    Finalized,
}

/// The commitment level that a caller asks for.
#[derive(Clone, Copy, Debug, PartialEq, Eq, Structural)]
pub struct CommitmentConfig {
    pub commitment: CommitmentLevel,
}

/// One account that an instruction uses.
#[derive(Clone, Copy, Debug, PartialEq, Eq)]
pub struct AccountMeta {
    pub pubkey: Pubkey,
    pub is_signer: bool,
    pub is_writable: bool,
}

/// One call of an on-chain program.
#[derive(Debug, PartialEq, Eq)]
pub struct Instruction {
    pub program_id: Pubkey,
    pub accounts: Vec<AccountMeta>,
    pub data: Vec<u8>,
}

/// What an account reference holds, as mathematical values.
pub struct AccountMetaView {
    pub pubkey: Seq<u8>,
    pub is_signer: bool,
    pub is_writable: bool,
}

/// What an instruction holds, as mathematical values.
#[verifier::ext_equal]
pub struct InstructionView {
    pub program_id: Seq<u8>,
    pub accounts: Seq<AccountMetaView>,
    pub data: Seq<u8>,
}

impl View for AccountMeta {
    type V = AccountMetaView;

    open spec fn view(&self) -> AccountMetaView {
        AccountMetaView {
            pubkey: self.pubkey.0@,
            is_signer: self.is_signer,
            is_writable: self.is_writable,
        }
    }
}

impl View for Instruction {
    type V = InstructionView;

    open spec fn view(&self) -> InstructionView {
        InstructionView {
            program_id: self.program_id.0@,
            accounts: self.accounts@.map_values(|meta: AccountMeta| meta@),
            data: self.data@,
        }
    }
}

/// An on-chain table of addresses that a transaction can refer to by index.
#[derive(Debug, PartialEq, Eq)]
pub struct AddressLookupTableAccount {
    pub key: Pubkey,
    pub addresses: Vec<Pubkey>,
}

/// What a lookup table holds, as mathematical values.
#[verifier::ext_equal]
pub struct LookupTableView {
    pub key: Seq<u8>,
    pub addresses: Seq<Seq<u8>>,
}

impl View for AddressLookupTableAccount {
    type V = LookupTableView;

    open spec fn view(&self) -> LookupTableView {
        LookupTableView {
            key: self.key.0@,
            addresses: self.addresses@.map_values(|address: Pubkey| address.0@),
        }
    }
}

impl Clone for AddressLookupTableAccount {
    fn clone(&self) -> (copy: Self)
        ensures
            copy@ == self@,
    {
        let mut addresses: Vec<Pubkey> = Vec::with_capacity(self.addresses.len());
        for i in 0..self.addresses.len()
            invariant
                addresses@ == self.addresses@.take(i as int),
        {
            addresses.push(self.addresses[i]);
        }
        assert(addresses@ == self.addresses@);
        AddressLookupTableAccount { key: self.key, addresses }
    }
}

/// What a list of lookup tables holds.
pub open spec fn tables_view(tables: Seq<AddressLookupTableAccount>) -> Seq<LookupTableView> {
    tables.map_values(|table: AddressLookupTableAccount| table@)
}

/// What a list of instructions holds.
pub open spec fn instructions_view(instructions: Seq<Instruction>) -> Seq<InstructionView> {
    instructions.map_values(|instruction: Instruction| instruction@)
}

} // verus!
