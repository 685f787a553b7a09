//! What a client is asked for.
use vstd::prelude::*;

pub mod composite_rpc_client;

verus! {

/// The leading bytes by which the accounts of one type are found: the first byte
/// of the discriminator, or all of it.
#[derive(Clone, Copy, Debug, PartialEq, Eq)]
pub enum ClientDiscriminator {
    Byte(u8),
    Bytes([u8; 8]),
}

impl View for ClientDiscriminator {
    type V = Seq<u8>;

    open spec fn view(&self) -> Seq<u8> {
        match *self {
            ClientDiscriminator::Byte(byte) => seq![byte],
            ClientDiscriminator::Bytes(bytes) => bytes@,
        }
    }
}

impl ClientDiscriminator {
    /// The bytes with which the data of an account have to begin.
    pub fn to_vec(&self) -> (bytes: Vec<u8>)
        ensures
            bytes@ == self@,
    {
        match self {
            ClientDiscriminator::Byte(byte) => {
                let mut bytes: Vec<u8> = Vec::new();
                bytes.push(*byte);
                bytes
            },
            ClientDiscriminator::Bytes(discriminator) => {
                let mut bytes: Vec<u8> = Vec::new();
                for i in 0..8usize
                    invariant
                        bytes@ == discriminator@.take(i as int),
                {
                    bytes.push(discriminator[i]);
                    assert(bytes@ == discriminator@.take(i + 1));
                }
                assert(bytes@ == discriminator@);
                bytes
            },
        }
    }
}

/// The first byte of a discriminator asks for no more than the whole of it: data
/// that begin with all bytes begin with the first one.
pub proof fn first_byte_asks_for_less(discriminator: [u8; 8])
    ensures
        ClientDiscriminator::Byte(discriminator[0])@.len() == 1,
        ClientDiscriminator::Bytes(discriminator)@.len() == 8,
        ClientDiscriminator::Byte(discriminator[0])@.is_prefix_of(
            ClientDiscriminator::Bytes(discriminator)@,
        ),
{
    assert(seq![discriminator[0]] == discriminator@.take(1));
}

} // verus!
