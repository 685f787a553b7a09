//! What accounts are asked for, and how those that were fetched are read.
use vstd::prelude::*;

use crate::accounts::AccountsQuery;
use crate::async_client::ClientDiscriminator;
use crate::errors::{ErrorKind, Failure};
use crate::link::OrbitLink;
use crate::text::{bytes_text, bytes_to_text, comma_separated, decimal};
use crate::types::Pubkey;

verus! {

/// Whether `read` gives `value` of `data`, and nothing else.
pub open spec fn always_reads<A, F: Fn(&[u8]) -> A>(read: F, data: Seq<u8>, value: A) -> bool {
    forall|bytes: &[u8], other: A|
        bytes@ == data && #[trigger] call_ensures(read, (bytes,), other) ==> other == value
}

/// An account that was fetched is read from all of its data, whatever comes of it; one
/// that was not is the client's error.
pub proof fn account_is_read_whole<T, S, A, C, F: Fn(&[u8]) -> Result<A, C>>(
    link: &OrbitLink<T, S>,
    account: Result<Vec<u8>, C>,
    try_deserialize: F,
    read: Result<A, C>,
    value: Result<A, C>,
)
    requires
        call_ensures(
            OrbitLink::<T, S>::get_anchor_account::<A, C, F>,
            (link, account, try_deserialize),
            read,
        ),
        account matches Ok(data) ==> always_reads(try_deserialize, data@, value),
    ensures
        account is Ok ==> read == value,
        account matches Ok(data) ==> exists|bytes: &[u8]|
            bytes@ == data@ && #[trigger] call_ensures(try_deserialize, (bytes,), read),
        account matches Err(error) ==> read == Err::<A, C>(error),
{
}

/// A relaxed account has to begin with the discriminator; where it does, it is read
/// from all that follows, whatever its length; where it does not, both are reported.
pub proof fn relaxed_account_is_exact<T, S, A, C, F: Fn(&[u8]) -> Result<A, String>>(
    link: &OrbitLink<T, S>,
    data: Vec<u8>,
    discriminator: &[u8; 8],
    deserialize: F,
    read: Result<A, Failure<C>>,
    value: Result<A, String>,
)
    requires
        call_ensures(
            OrbitLink::<T, S>::get_anchor_account_relaxed::<A, C, F>,
            (link, Ok(data), discriminator, deserialize),
            read,
        ),
        data@.len() >= 8,
        always_reads(deserialize, data@.subrange(8, data@.len() as int), value),
    ensures
        ({
            let head = data@.subrange(0, 8);
            &&& head == discriminator@ ==> match value {
                Ok(account) => read == Ok::<A, Failure<C>>(account),
                Err(text) => read == Err::<A, Failure<C>>(
                    Failure::Link(ErrorKind::DeserializationError(text)),
                ),
            }
            &&& head == discriminator@ && read is Ok ==> exists|bytes: &[u8]|
                bytes@ == data@.subrange(8, data@.len() as int) && #[trigger] call_ensures(
                    deserialize,
                    (bytes,),
                    Ok(read->Ok_0),
                )
            &&& head != discriminator@ ==> {
                &&& read matches Err(Failure::Link(ErrorKind::DeserializationError(text)))
                &&& text@ == "Discriminator mismatch: expected "@ + bytes_text(discriminator@)
                    + ", got "@ + bytes_text(head)
            }
        }),
{
    assert(data@.take(8) == data@.subrange(0, 8));
    assert(data@.skip(8) == data@.subrange(8, data@.len() as int));
}

/// A relaxed account that was not fetched is the client's error.
pub proof fn missing_relaxed_account_is_reported<
    T,
    S,
    A,
    C,
    F: Fn(&[u8]) -> Result<A, String>,
>(
    link: &OrbitLink<T, S>,
    error: C,
    discriminator: &[u8; 8],
    deserialize: F,
    read: Result<A, Failure<C>>,
)
    requires
        call_ensures(
            OrbitLink::<T, S>::get_anchor_account_relaxed::<A, C, F>,
            (link, Err(error), discriminator, deserialize),
            read,
        ),
    ensures
        read == Err::<A, Failure<C>>(Failure::Client(error)),
{
}

/// Of several accounts that were read, exactly those are missing that do not exist;
/// every other is there, in its place, read from all of its data.
pub proof fn accounts_are_read_in_place<T, S, A, C, F: Fn(&[u8]) -> Result<A, C>>(
    link: &OrbitLink<T, S>,
    list: Vec<Option<Vec<u8>>>,
    try_deserialize: F,
    values: Vec<Option<A>>,
    i: int,
    value: A,
)
    requires
        call_ensures(
            OrbitLink::<T, S>::get_anchor_accounts::<A, C, F>,
            (link, Ok(list), try_deserialize),
            Ok(values),
        ),
        0 <= i < list@.len(),
    ensures
        values@.len() == list@.len(),
        values@[i] is None <==> list@[i] is None,
        list@[i] matches Some(data) ==> {
            &&& values@[i] is Some
            &&& exists|bytes: &[u8]|
                bytes@ == data@ && #[trigger] call_ensures(
                    try_deserialize,
                    (bytes,),
                    Ok(values@[i]->0),
                )
            &&& always_reads(try_deserialize, data@, Ok(value)) ==> values@[i] == Some(value)
        },
{
    assert(list@[i] == list@[i]);
}

/// Reading several accounts succeeds where each that exists can only be read, and
/// fails where one of them cannot.
pub proof fn accounts_are_read_or_refused<T, S, A, C, F: Fn(&[u8]) -> Result<A, C>>(
    link: &OrbitLink<T, S>,
    list: Vec<Option<Vec<u8>>>,
    try_deserialize: F,
    read: Result<Vec<Option<A>>, C>,
)
    requires
        call_ensures(
            OrbitLink::<T, S>::get_anchor_accounts::<A, C, F>,
            (link, Ok(list), try_deserialize),
            read,
        ),
    ensures
        (forall|i: int, bytes: &[u8], outcome: Result<A, C>|
            0 <= i < list@.len() && (#[trigger] list@[i]) is Some && bytes@ == list@[i]->0@
                && #[trigger] call_ensures(try_deserialize, (bytes,), outcome) ==> outcome is Ok)
            ==> read is Ok,
        forall|i: int, error: C|
            0 <= i < list@.len() && (#[trigger] list@[i]) is Some && #[trigger] always_reads(
                try_deserialize,
                list@[i]->0@,
                Err(error),
            ) ==> read is Err,
        read matches Err(error) ==> exists|i: int, bytes: &[u8]|
            0 <= i < list@.len() && (#[trigger] list@[i]) is Some && bytes@ == list@[i]->0@
                && #[trigger] call_ensures(try_deserialize, (bytes,), Err(error)),
{
}

/// The first account that cannot be read is the error of them all.
pub proof fn first_unreadable_account_is_reported<T, S, A, C, F: Fn(&[u8]) -> Result<A, C>>(
    link: &OrbitLink<T, S>,
    list: Vec<Option<Vec<u8>>>,
    try_deserialize: F,
    read: Result<Vec<Option<A>>, C>,
    first: int,
    error: C,
)
    requires
        call_ensures(
            OrbitLink::<T, S>::get_anchor_accounts::<A, C, F>,
            (link, Ok(list), try_deserialize),
            read,
        ),
        0 <= first < list@.len(),
        list@[first] is Some,
        always_reads(try_deserialize, list@[first]->0@, Err(error)),
        forall|j: int, bytes: &[u8], outcome: Result<A, C>|
            0 <= j < first && (#[trigger] list@[j]) is Some && bytes@ == list@[j]->0@
                && #[trigger] call_ensures(try_deserialize, (bytes,), outcome) ==> outcome is Ok,
    ensures
        read == Err::<Vec<Option<A>>, C>(error),
{
    assert(list@[first] is Some);
}

/// Where the accounts could not be fetched, that is the answer.
pub proof fn missing_accounts_are_reported<
    T,
    S,
    A,
    C,
    F: Fn(&[u8]) -> Result<A, C>,
>(
    link: &OrbitLink<T, S>,
    error: C,
    try_deserialize: F,
    read: Result<Vec<Option<A>>, C>,
    read_all: Result<Vec<(Pubkey, A)>, C>,
)
    requires
        call_ensures(
            OrbitLink::<T, S>::get_anchor_accounts::<A, C, F>,
            (link, Err(error), try_deserialize),
            read,
        ),
        call_ensures(
            OrbitLink::<T, S>::get_all_anchor_accounts::<A, C, F>,
            (link, Err(error), try_deserialize),
            read_all,
        ),
    ensures
        read == Err::<Vec<Option<A>>, C>(error),
        read_all == Err::<Vec<(Pubkey, A)>, C>(error),
{
}

/// All accounts of a kind are asked for by the program, by the length of a default
/// account and by all eight leading bytes.
pub proof fn query_is_exact<T, S, C>(
    link: &OrbitLink<T, S>,
    owner: &Pubkey,
    default_account: Result<Vec<u8>, C>,
    discriminator: [u8; 8],
    query: Result<AccountsQuery, C>,
)
    requires
        call_ensures(
            OrbitLink::<T, S>::all_anchor_accounts_query::<C>,
            (link, owner, default_account, discriminator),
            query,
        ),
    ensures
        default_account matches Err(error) ==> query == Err::<AccountsQuery, C>(error),
        default_account matches Ok(data) ==> {
            &&& query is Ok
            &&& query->Ok_0.program_id == *owner
            &&& query->Ok_0.size == data@.len()
            &&& query->Ok_0.discriminator == ClientDiscriminator::Bytes(discriminator)
        },
{
    if let Ok(data) = default_account {
        vec_len_fits(data);
    }
}

/// The length of a list fits in 64 bits.
proof fn vec_len_fits(data: Vec<u8>)
    ensures
        data@.len() <= u64::MAX,
{
    assert(data.len() <= usize::MAX);
    assert(data@.len() == data.len());
}

/// Zero-copy accounts are asked for by the program, by the size of the value with its
/// eight leading bytes, and by the first of these.
pub proof fn zero_copy_query_is_exact<T, S>(
    link: &OrbitLink<T, S>,
    owner: &Pubkey,
    size: usize,
    discriminator: &[u8; 8],
    query: AccountsQuery,
)
    requires
        size + 8 <= usize::MAX,
        call_ensures(
            OrbitLink::<T, S>::all_zero_copy_accounts_query,
            (link, owner, size, discriminator),
            query,
        ),
    ensures
        query.program_id == *owner,
        query.size == size + 8,
        query.discriminator == ClientDiscriminator::Byte(discriminator@[0]),
{
}

/// The accounts of a program are read all and in place, each with its own key and from
/// all of its data.
pub proof fn program_accounts_are_read_in_place<T, S, A, C, F: Fn(&[u8]) -> Result<A, C>>(
    link: &OrbitLink<T, S>,
    list: Vec<(Pubkey, Vec<u8>)>,
    try_deserialize: F,
    values: Vec<(Pubkey, A)>,
    i: int,
    value: A,
)
    requires
        call_ensures(
            OrbitLink::<T, S>::get_all_anchor_accounts::<A, C, F>,
            (link, Ok(list), try_deserialize),
            Ok(values),
        ),
        0 <= i < list@.len(),
    ensures
        values@.len() == list@.len(),
        values@[i].0 == list@[i].0,
        exists|bytes: &[u8]|
            bytes@ == list@[i].1@ && #[trigger] call_ensures(
                try_deserialize,
                (bytes,),
                Ok(values@[i].1),
            ),
        always_reads(try_deserialize, list@[i].1@, Ok(value)) ==> values@[i].1 == value,
{
    assert(list@[i] == list@[i]);
}

/// Reading the accounts of a program succeeds where each can only be read; where one
/// cannot, the first such one is the error of them all.
pub proof fn program_accounts_are_read_or_refused<T, S, A, C, F: Fn(&[u8]) -> Result<A, C>>(
    link: &OrbitLink<T, S>,
    list: Vec<(Pubkey, Vec<u8>)>,
    try_deserialize: F,
    read: Result<Vec<(Pubkey, A)>, C>,
    first: int,
    error: C,
)
    requires
        call_ensures(
            OrbitLink::<T, S>::get_all_anchor_accounts::<A, C, F>,
            (link, Ok(list), try_deserialize),
            read,
        ),
        0 <= first <= list@.len(),
        forall|j: int, bytes: &[u8], outcome: Result<A, C>|
            0 <= j < first && bytes@ == (#[trigger] list@[j]).1@ && #[trigger] call_ensures(
                try_deserialize,
                (bytes,),
                outcome,
            ) ==> outcome is Ok,
    ensures
        first == list@.len() ==> read is Ok,
        first < list@.len() && always_reads(try_deserialize, list@[first].1@, Err(error)) ==> read
            == Err::<Vec<(Pubkey, A)>, C>(error),
{
    if first < list@.len() {
        assert(list@[first] == list@[first]);
    }
}

/// Zero-copy accounts are read all and in place, each with its own key and from all
/// that follows its eight leading bytes.
pub proof fn zero_copy_accounts_are_read_in_place<T, S, A, C, F: Fn(&[u8]) -> A>(
    link: &OrbitLink<T, S>,
    accounts: Result<Vec<(Pubkey, Vec<u8>)>, C>,
    from_bytes: F,
    read: Result<Vec<(Pubkey, A)>, C>,
    i: int,
    value: A,
)
    requires
        call_ensures(
            OrbitLink::<T, S>::get_all_zero_copy_accounts::<A, C, F>,
            (link, accounts, from_bytes),
            read,
        ),
    ensures
        accounts matches Err(error) ==> read == Err::<Vec<(Pubkey, A)>, C>(error),
        accounts matches Ok(list) ==> {
            &&& read is Ok
            &&& read->Ok_0@.len() == list@.len()
            &&& 0 <= i < list@.len() ==> read->Ok_0@[i].0 == list@[i].0
            &&& 0 <= i < list@.len() && list@[i].1@.len() >= 8 && always_reads(
                from_bytes,
                list@[i].1@.subrange(8, list@[i].1@.len() as int),
                value,
            ) ==> read->Ok_0@[i].1 == value
            &&& 0 <= i < list@.len() && list@[i].1@.len() >= 8 ==> exists|bytes: &[u8]|
                bytes@ == list@[i].1@.subrange(8, list@[i].1@.len() as int)
                    && #[trigger] call_ensures(from_bytes, (bytes,), read->Ok_0@[i].1)
        },
{
    if let Ok(list) = accounts {
        if 0 <= i < list@.len() && list@[i].1@.len() >= 8 {
            assert(list@[i].1@.skip(8) == list@[i].1@.subrange(8, list@[i].1@.len() as int));
        }
    }
}

/// A discriminator becomes its bytes: the one, or all eight in order.
pub proof fn discriminator_bytes_are_exact(discriminator: &ClientDiscriminator, bytes: Vec<u8>)
    requires
        call_ensures(ClientDiscriminator::to_vec, (discriminator,), bytes),
    ensures
        match *discriminator {
            ClientDiscriminator::Byte(byte) => bytes@.len() == 1 && bytes@[0] == byte,
            ClientDiscriminator::Bytes(all) => bytes@.len() == 8 && forall|j: int|
                0 <= j < 8 ==> (#[trigger] bytes@[j]) == all@[j],
        },
{
}

/// A digit as a character.
pub open spec fn digit(n: int) -> char {
    (n + '0' as int) as char
}

/// A byte is written in decimal, without leading zeros.
pub proof fn decimal_is_exact(byte: u8)
    ensures
        byte < 10 ==> decimal(byte as nat) == seq![digit(byte as int)],
        10 <= byte < 100 ==> decimal(byte as nat) == seq![
            digit(byte as int / 10),
            digit(byte as int % 10),
        ],
        100 <= byte ==> decimal(byte as nat) == seq![
            digit(byte as int / 100),
            digit(byte as int / 10 % 10),
            digit(byte as int % 10),
        ],
{
    reveal_strlit("0123456789");
    reveal_with_fuel(decimal, 4);
    assert forall|d: int| 0 <= d < 10 implies "0123456789"@[d] == #[trigger] digit(d) by {}
    let n = byte as nat;
    assert(digit(n as int % 10) == "0123456789"@[(n % 10) as int]);
    assert(digit(n as int / 10 % 10) == "0123456789"@[(n / 10 % 10) as int]);
    assert(digit(n as int / 100) == "0123456789"@[(n / 100) as int]);
    if n < 10 {
        assert(decimal(n) =~= seq![digit(n as int)]);
    } else if n < 100 {
        assert(n / 10 % 10 == n / 10);
        assert(decimal(n) =~= seq![digit(n as int / 10), digit(n as int % 10)]);
    } else {
        assert(n / 10 / 10 == n / 100);
        assert(n / 100 % 10 == n / 100);
        assert(decimal(n) =~= seq![
            digit(n as int / 100),
            digit(n as int / 10 % 10),
            digit(n as int % 10),
        ]);
    }
}

/// A list of bytes is written in square brackets, with a comma and a space between two
/// bytes, and so byte by byte.
pub proof fn bytes_text_is_exact(bytes: &[u8], text: String, last: u8)
    requires
        call_ensures(bytes_to_text, (bytes,), text),
    ensures
        text@ == "["@ + comma_separated(bytes@) + "]"@,
        bytes@.len() == 0 ==> text@ == "["@ + "]"@,
        bytes@.len() == 1 ==> text@ == "["@ + decimal(bytes@[0] as nat) + "]"@,
        comma_separated(bytes@.push(last)) == if bytes@.len() == 0 {
            decimal(last as nat)
        } else {
            comma_separated(bytes@) + ", "@ + decimal(last as nat)
        },
{
    assert(bytes@.push(last).drop_last() == bytes@);
    if bytes@.len() == 0 {
        assert("["@ + comma_separated(bytes@) + "]"@ == "["@ + "]"@);
    }
}

} // verus!
