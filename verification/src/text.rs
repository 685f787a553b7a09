//! Bytes as text.
use vstd::prelude::*;
use vstd::string::*;

verus! {

/// `n` in decimal digits.
pub open spec fn decimal(n: nat) -> Seq<char>
    decreases n,
{
    let digit = "0123456789"@[(n % 10) as int];
    if n < 10 {
        seq![digit]
    } else {
        decimal(n / 10).push(digit)
    }
}

/// Bytes in decimal, with a comma and a space between two of them.
pub open spec fn comma_separated(bytes: Seq<u8>) -> Seq<char>
    decreases bytes.len(),
{
    if bytes.len() == 0 {
        Seq::empty()
    } else if bytes.len() == 1 {
        decimal(bytes[0] as nat)
    } else {
        comma_separated(bytes.drop_last()) + ", "@ + decimal(bytes.last() as nat)
    }
}

/// A list of bytes as text, in square brackets.
pub open spec fn bytes_text(bytes: Seq<u8>) -> Seq<char> {
    "["@ + comma_separated(bytes) + "]"@
}

/// Appends a byte in decimal.
fn append_decimal(text: &mut String, byte: u8)
    ensures
        final(text)@ == old(text)@ + decimal(byte as nat),
    decreases byte,
{
    proof {
        reveal_strlit("0123456789");
    }
    let ghost before = text@;
    if byte >= 10 {
        append_decimal(text, byte / 10);
    }
    let digit: usize = (byte % 10) as usize;
    text.append("0123456789".substring_char(digit, digit + 1));
    assert("0123456789"@.subrange(digit as int, digit + 1) == seq!["0123456789"@[digit as int]]);
    assert(text@ == before + decimal(byte as nat));
}

/// A list of bytes as text.
pub fn bytes_to_text(bytes: &[u8]) -> (text: String)
    ensures
        text@ == bytes_text(bytes@),
{
    let mut text: String = "[".to_owned();
    for i in 0..bytes.len()
        invariant
            text@ == "["@ + comma_separated(bytes@.take(i as int)),
    {
        let ghost earlier = bytes@.take(i as int);
        assert(bytes@.take(i + 1).drop_last() == earlier);
        if i > 0 {
            text.append(", ");
        }
        append_decimal(&mut text, bytes[i]);
        assert(text@ == "["@ + comma_separated(bytes@.take(i + 1)));
    }
    assert(bytes@.take(bytes@.len() as int) == bytes@);
    text.append("]");
    text
}

} // verus!
