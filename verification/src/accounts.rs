//! Reading accounts: what to ask for, and how to read what comes back.
use vstd::prelude::*;
use vstd::slice::slice_subrange;

use crate::async_client::ClientDiscriminator;
use crate::errors::{ErrorKind, Failure};
use crate::link::OrbitLink;
use crate::text::bytes_to_text;
use crate::types::Pubkey;
#[allow(unused_imports)]
use crate::text::bytes_text;

verus! {

/// Which accounts of a program to ask for.
#[derive(Debug, PartialEq, Eq)]
pub struct AccountsQuery {
    pub program_id: Pubkey,
    /// The length of their data.
    pub size: u64,
    pub discriminator: ClientDiscriminator,
}

/// Whether `read` can be given `data`.
pub open spec fn can_read<A, F: Fn(&[u8]) -> A>(read: F, data: Seq<u8>) -> bool {
    forall|bytes: &[u8]| bytes@ == data ==> #[trigger] call_requires(read, (bytes,))
}

/// Whether `read` can make `value` of `data`.
pub open spec fn reads_as<A, F: Fn(&[u8]) -> A>(read: F, data: Seq<u8>, value: A) -> bool {
    exists|bytes: &[u8]| bytes@ == data && #[trigger] call_ensures(read, (bytes,), value)
}

/// The text by which wrong leading bytes are reported.
pub open spec fn mismatch_text(expected: Seq<u8>, found: Seq<u8>) -> Seq<char> {
    "Discriminator mismatch: expected "@ + bytes_text(expected) + ", got "@ + bytes_text(found)
}

/// Whether two lists of bytes are equal.
fn same_bytes(a: &[u8], b: &[u8]) -> (same: bool)
    ensures
        same == (a@ == b@),
{
    if a.len() != b.len() {
        return false;
    }
    for i in 0..a.len()
        invariant
            a@.len() == b@.len(),
            a@.take(i as int) == b@.take(i as int),
    {
        if a[i] != b[i] {
            assert(a@[i as int] != b@[i as int]);
            return false;
        }
        assert(a@.take(i + 1) == a@.take(i as int).push(a@[i as int]));
        assert(b@.take(i + 1) == b@.take(i as int).push(b@[i as int]));
    }
    assert(a@.take(a@.len() as int) == a@);
    assert(b@.take(b@.len() as int) == b@);
    true
}

impl<T, S> OrbitLink<T, S> {
    /// Reads the account that was fetched with `try_deserialize`.
    pub fn get_anchor_account<A, C, F: Fn(&[u8]) -> Result<A, C>>(
        &self,
        account: Result<Vec<u8>, C>,
        try_deserialize: F,
    ) -> (read: Result<A, C>)
        requires
            account matches Ok(data) ==> can_read(try_deserialize, data@),
        ensures
            match account {
                Err(error) => read matches Err(reason) && reason == error,
                Ok(data) => reads_as(try_deserialize, data@, read),
            },
    {
        match account {
            Err(error) => Err(error),
            Ok(data) => {
                let bytes: &[u8] = data.as_slice();
                let read = try_deserialize(bytes);
                assert(bytes@ == data@ && call_ensures(try_deserialize, (bytes,), read));
                read
            },
        }
    }

    /// Reads the account that was fetched, whatever its length: its data have to
    /// begin with `discriminator`, and `deserialize` reads what follows.
    pub fn get_anchor_account_relaxed<A, C, F: Fn(&[u8]) -> Result<A, String>>(
        &self,
        account: Result<Vec<u8>, C>,
        discriminator: &[u8; 8],
        deserialize: F,
    ) -> (read: Result<A, Failure<C>>)
        requires
            account matches Ok(data) ==> data@.len() >= 8 && can_read(deserialize, data@.skip(8)),
        ensures
            match account {
                Err(error) => read matches Err(Failure::Client(reason)) && reason == error,
                Ok(data) => if data@.take(8) != discriminator@ {
                    read matches Err(Failure::Link(ErrorKind::DeserializationError(text))) && text@
                        == mismatch_text(discriminator@, data@.take(8))
                } else {
                    match read {
                        Ok(value) => reads_as(deserialize, data@.skip(8), Ok(value)),
                        Err(Failure::Link(ErrorKind::DeserializationError(text))) => reads_as(
                            deserialize,
                            data@.skip(8),
                            Err(text),
                        ),
                        _ => false,
                    }
                },
            },
    {
        match account {
            Err(error) => Err(Failure::Client(error)),
            Ok(data) => {
                let head: &[u8] = slice_subrange(data.as_slice(), 0, 8);
                assert(head@ == data@.take(8));
                let expected: &[u8] = discriminator.as_slice();
                if !same_bytes(expected, head) {
                    let mut text: String = "Discriminator mismatch: expected ".to_owned();
                    text.append(bytes_to_text(expected).as_str());
                    text.append(", got ");
                    text.append(bytes_to_text(head).as_str());
                    return Err(Failure::Link(ErrorKind::DeserializationError(text)));
                }
                let body: &[u8] = slice_subrange(data.as_slice(), 8, data.len());
                assert(body@ == data@.skip(8));
                let outcome = deserialize(body);
                assert(body@ == data@.skip(8) && call_ensures(deserialize, (body,), outcome));
                match outcome {
                    Ok(value) => Ok(value),
                    Err(text) => Err(Failure::Link(ErrorKind::DeserializationError(text))),
                }
            },
        }
    }

    /// Reads the accounts that were fetched, as far as they exist, in order. The
    /// first that cannot be read is the error of them all.
    pub fn get_anchor_accounts<A, C, F: Fn(&[u8]) -> Result<A, C>>(
        &self,
        accounts: Result<Vec<Option<Vec<u8>>>, C>,
        try_deserialize: F,
    ) -> (read: Result<Vec<Option<A>>, C>)
        requires
            accounts matches Ok(list) ==> forall|i: int|
                0 <= i < list@.len() ==> ((#[trigger] list@[i]) matches Some(data) ==> can_read(
                    try_deserialize,
                    data@,
                )),
        ensures
            match accounts {
                Err(error) => read matches Err(reason) && reason == error,
                Ok(list) => match read {
                    Ok(values) => {
                        &&& values@.len() == list@.len()
                        &&& forall|i: int|
                            #![trigger list@[i]]
                            #![trigger values@[i]]
                            0 <= i < list@.len() ==> reads_slot(
                                try_deserialize,
                                list@[i],
                                Ok(values@[i]),
                            )
                    },
                    Err(error) => exists|i: int|
                        {
                            &&& 0 <= i < list@.len()
                            &&& reads_slot(try_deserialize, #[trigger] list@[i], Err(error))
                            &&& forall|j: int|
                                0 <= j < i ==> slot_is_readable(try_deserialize, #[trigger] list@[j])
                        },
                },
            },
    {
        let list = match accounts {
            Err(error) => {
                return Err(error);
            },
            Ok(list) => list,
        };
        let mut values: Vec<Option<A>> = Vec::new();
        for i in 0..list.len()
            invariant
                accounts matches Ok(fetched) && fetched == list,
                forall|k: int|
                    0 <= k < list@.len() ==> ((#[trigger] list@[k]) matches Some(data) ==> can_read(
                        try_deserialize,
                        data@,
                    )),
                values@.len() == i,
                forall|k: int|
                    0 <= k < i ==> reads_slot(
                        try_deserialize,
                        #[trigger] list@[k],
                        Ok::<Option<A>, C>(values@[k]),
                    ),
        {
            match &list[i] {
                None => {
                    values.push(None);
                },
                Some(data) => {
                    let bytes: &[u8] = data.as_slice();
                    let outcome = try_deserialize(bytes);
                    assert(bytes@ == data@ && call_ensures(try_deserialize, (bytes,), outcome));
                    match outcome {
                        Ok(value) => {
                            values.push(Some(value));
                        },
                        Err(error) => {
                            proof {
                                assert(reads_slot::<A, C, F>(
                                    try_deserialize,
                                    list@[i as int],
                                    Err(error),
                                ));
                                assert forall|j: int| 0 <= j < i implies slot_is_readable(
                                    try_deserialize,
                                    #[trigger] list@[j],
                                ) by {
                                    assert(reads_slot(
                                        try_deserialize,
                                        list@[j],
                                        Ok::<Option<A>, C>(values@[j]),
                                    ));
                                }
                            }
                            return Err(error);
                        },
                    }
                },
            }
        }
        Ok(values)
    }

    /// Which accounts of the program `owner` to ask for, to get all of one kind:
    /// those as long as a default account is and with the same leading bytes.
    /// `default_account` is the default account in its serialised form, or the error
    /// that came of serialising it.
    pub fn all_anchor_accounts_query<C>(
        &self,
        owner: &Pubkey,
        default_account: Result<Vec<u8>, C>,
        discriminator: [u8; 8],
    ) -> (query: Result<AccountsQuery, C>)
        ensures
            match default_account {
                Err(error) => query matches Err(reason) && reason == error,
                Ok(data) => query matches Ok(asked) && asked == (AccountsQuery {
                    program_id: *owner,
                    size: data@.len() as u64,
                    discriminator: ClientDiscriminator::Bytes(discriminator),
                }),
            },
    {
        match default_account {
            Err(error) => Err(error),
            Ok(data) => Ok(
                AccountsQuery {
                    program_id: *owner,
                    size: data.len() as u64,
                    discriminator: ClientDiscriminator::Bytes(discriminator),
                },
            ),
        }
    }

    /// Reads the accounts of a program that were fetched, in order. The first that
    /// cannot be read is the error of them all.
    pub fn get_all_anchor_accounts<A, C, F: Fn(&[u8]) -> Result<A, C>>(
        &self,
        accounts: Result<Vec<(Pubkey, Vec<u8>)>, C>,
        try_deserialize: F,
    ) -> (read: Result<Vec<(Pubkey, A)>, C>)
        requires
            accounts matches Ok(list) ==> forall|i: int|
                0 <= i < list@.len() ==> can_read(try_deserialize, (#[trigger] list@[i]).1@),
        ensures
            match accounts {
                Err(error) => read matches Err(reason) && reason == error,
                Ok(list) => match read {
                    Ok(values) => {
                        &&& values@.len() == list@.len()
                        &&& forall|i: int|
                            #![trigger list@[i]]
                            #![trigger values@[i]]
                            0 <= i < list@.len() ==> values@[i].0 == list@[i].0 && reads_as(
                                try_deserialize,
                                list@[i].1@,
                                Ok(values@[i].1),
                            )
                    },
                    Err(error) => exists|i: int|
                        {
                            &&& 0 <= i < list@.len()
                            &&& reads_as(
                                try_deserialize,
                                (#[trigger] list@[i]).1@,
                                Err(error),
                            )
                            &&& forall|j: int|
                                0 <= j < i ==> is_readable(try_deserialize, (#[trigger] list@[j]).1@)
                        },
                },
            },
    {
        let list = match accounts {
            Err(error) => {
                return Err(error);
            },
            Ok(list) => list,
        };
        let mut values: Vec<(Pubkey, A)> = Vec::new();
        for i in 0..list.len()
            invariant
                accounts matches Ok(fetched) && fetched == list,
                forall|k: int|
                    0 <= k < list@.len() ==> can_read(try_deserialize, (#[trigger] list@[k]).1@),
                values@.len() == i,
                forall|k: int|
                    0 <= k < i ==> values@[k].0 == (#[trigger] list@[k]).0 && reads_as(
                        try_deserialize,
                        list@[k].1@,
                        Ok(values@[k].1),
                    ),
        {
            let bytes: &[u8] = list[i].1.as_slice();
            assert(can_read(try_deserialize, list@[i as int].1@));
            let outcome = try_deserialize(bytes);
            assert(bytes@ == list@[i as int].1@ && call_ensures(
                try_deserialize,
                (bytes,),
                outcome,
            ));
            match outcome {
                Ok(value) => {
                    values.push((list[i].0, value));
                },
                Err(error) => {
                    proof {
                        assert(reads_as(try_deserialize, list@[i as int].1@, Err(error)));
                        assert forall|j: int| 0 <= j < i implies is_readable(
                            try_deserialize,
                            (#[trigger] list@[j]).1@,
                        ) by {
                            assert(reads_as(try_deserialize, list@[j].1@, Ok(values@[j].1)));
                        }
                    }
                    return Err(error);
                },
            }
        }
        Ok(values)
    }

    /// Which accounts of the program `owner` to ask for, to get all whose data, after
    /// the leading bytes, are a value of `size` bytes: only the first of the leading
    /// bytes is asked for.
    pub fn all_zero_copy_accounts_query(
        &self,
        owner: &Pubkey,
        size: usize,
        discriminator: &[u8; 8],
    ) -> (query: AccountsQuery)
        requires
            size + 8 <= usize::MAX,
        ensures
            query == (AccountsQuery {
                program_id: *owner,
                size: (size + 8) as u64,
                discriminator: ClientDiscriminator::Byte(discriminator@[0]),
            }),
    {
        AccountsQuery {
            program_id: *owner,
            size: (size + 8) as u64,
            discriminator: ClientDiscriminator::Byte(discriminator[0]),
        }
    }

    /// Reads the accounts of a program that were fetched, in order, each from what
    /// follows its leading bytes.
    pub fn get_all_zero_copy_accounts<A, C, F: Fn(&[u8]) -> A>(
        &self,
        accounts: Result<Vec<(Pubkey, Vec<u8>)>, C>,
        from_bytes: F,
    ) -> (read: Result<Vec<(Pubkey, A)>, C>)
        requires
            accounts matches Ok(list) ==> forall|i: int|
                0 <= i < list@.len() ==> (#[trigger] list@[i]).1@.len() >= 8 && can_read(
                    from_bytes,
                    list@[i].1@.skip(8),
                ),
        ensures
            match accounts {
                Err(error) => read matches Err(reason) && reason == error,
                Ok(list) => {
                    &&& read matches Ok(values)
                    &&& values@.len() == list@.len()
                    &&& forall|i: int|
                        #![trigger list@[i]]
                        #![trigger values@[i]]
                        0 <= i < list@.len() ==> values@[i].0 == list@[i].0 && reads_as(
                            from_bytes,
                            list@[i].1@.skip(8),
                            values@[i].1,
                        )
                },
            },
    {
        let list = match accounts {
            Err(error) => {
                return Err(error);
            },
            Ok(list) => list,
        };
        let mut values: Vec<(Pubkey, A)> = Vec::new();
        for i in 0..list.len()
            invariant
                accounts matches Ok(fetched) && fetched == list,
                forall|k: int|
                    0 <= k < list@.len() ==> (#[trigger] list@[k]).1@.len() >= 8 && can_read(
                        from_bytes,
                        list@[k].1@.skip(8),
                    ),
                values@.len() == i,
                forall|k: int|
                    0 <= k < i ==> values@[k].0 == (#[trigger] list@[k]).0 && reads_as(
                        from_bytes,
                        list@[k].1@.skip(8),
                        values@[k].1,
                    ),
        {
            assert(list@[i as int].1@.len() >= 8);
            let body: &[u8] = slice_subrange(list[i].1.as_slice(), 8, list[i].1.len());
            assert(body@ == list@[i as int].1@.skip(8));
            let value = from_bytes(body);
            assert(body@ == list@[i as int].1@.skip(8) && call_ensures(
                from_bytes,
                (body,),
                value,
            ));
            values.push((list[i].0, value));
        }
        Ok(values)
    }
}

/// Whether `read` can make a value of `data` without error.
pub open spec fn is_readable<A, C, F: Fn(&[u8]) -> Result<A, C>>(read: F, data: Seq<u8>) -> bool {
    exists|value: A| reads_as(read, data, Ok::<A, C>(value))
}

/// Whether what was fetched for one account reads as `outcome`: nothing where there
/// is no account, else what `read` can make of its data.
pub open spec fn reads_slot<A, C, F: Fn(&[u8]) -> Result<A, C>>(
    read: F,
    slot: Option<Vec<u8>>,
    outcome: Result<Option<A>, C>,
) -> bool {
    match (slot, outcome) {
        (None, Ok(None)) => true,
        (Some(data), Ok(Some(value))) => reads_as(read, data@, Ok(value)),
        (Some(data), Err(error)) => reads_as(read, data@, Err(error)),
        _ => false,
    }
}

/// Whether what was fetched for one account can be read without error.
pub open spec fn slot_is_readable<A, C, F: Fn(&[u8]) -> Result<A, C>>(
    read: F,
    slot: Option<Vec<u8>>,
) -> bool {
    exists|value: Option<A>| reads_slot(read, slot, Ok::<Option<A>, C>(value))
}

} // verus!
