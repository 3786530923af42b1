//! Text the library shows: decimal and hexadecimal numbers as characters.

use vstd::prelude::*;

use crate::platform::decode_lossy;

verus! {

/// The decimal digits of `n`, most significant first.
pub open spec fn decimal_chars(n: nat) -> Seq<char>
    decreases n,
{
    if n < 10 {
        seq![(48 + n) as char]
    } else {
        decimal_chars(n / 10).push((48 + n % 10) as char)
    }
}

/// The ASCII codes of the decimal digits of `n`.
pub open spec fn decimal_bytes(n: nat) -> Seq<u8>
    decreases n,
{
    if n < 10 {
        seq![(48 + n) as u8]
    } else {
        decimal_bytes(n / 10).push((48 + n % 10) as u8)
    }
}

pub proof fn lemma_decimal_bytes(n: nat)
    ensures
        decimal_bytes(n).map_values(|b: u8| b as char) == decimal_chars(n),
        forall|i: int| 0 <= i < decimal_bytes(n).len() ==> #[trigger] decimal_bytes(n)[i] < 0x80,
    decreases n,
{
    if n >= 10 {
        lemma_decimal_bytes(n / 10);
        assert(decimal_bytes(n).map_values(|b: u8| b as char) =~= decimal_chars(n));
    } else {
        assert(decimal_bytes(n).map_values(|b: u8| b as char) =~= decimal_chars(n));
    }
}

/// Appends the decimal digits of `n` to `out`.
pub fn push_decimal(out: &mut Vec<u8>, n: u64)
    ensures
        final(out)@ == old(out)@ + decimal_bytes(n as nat),
    decreases n,
{
    if n >= 10 {
        push_decimal(out, n / 10);
    }
    out.push(48 + (n % 10) as u8);
    proof {
        if n >= 10 {
            assert(decimal_bytes(n as nat) == decimal_bytes((n / 10) as nat).push((48 + n % 10) as u8));
        }
    }
}

/// `n` in decimal.
pub fn decimal_string(n: u64) -> (text: String)
    ensures
        text@ == decimal_chars(n as nat),
{
    let mut bytes: Vec<u8> = Vec::new();
    push_decimal(&mut bytes, n);
    proof {
        lemma_decimal_bytes(n as nat);
        assert(bytes@ =~= decimal_bytes(n as nat));
    }
    decode_lossy(bytes.as_slice())
}

/// The lowercase hexadecimal digit of `d` (below 16).
pub open spec fn hex_digit(d: int) -> char {
    if d < 10 {
        (48 + d) as char
    } else {
        (87 + d) as char
    }
}

/// `v` as `0x` and two lowercase hexadecimal digits.
pub open spec fn hex_byte_chars(v: u8) -> Seq<char> {
    seq!['0', 'x', hex_digit((v / 16) as int), hex_digit((v % 16) as int)]
}

fn hex_digit_byte(d: u8) -> (b: u8)
    requires
        d < 16,
    ensures
        b as char == hex_digit(d as int),
        b < 0x80,
{
    if d < 10 {
        48 + d
    } else {
        87 + d
    }
}

/// `v` as `0x` and two lowercase hexadecimal digits.
pub fn hex_byte_string(v: u8) -> (text: String)
    ensures
        text@ == hex_byte_chars(v),
{
    let mut bytes: Vec<u8> = Vec::new();
    bytes.push(48);
    bytes.push(120);
    bytes.push(hex_digit_byte(v / 16));
    bytes.push(hex_digit_byte(v % 16));
    let text = decode_lossy(bytes.as_slice());
    proof {
        assert(text@ =~= hex_byte_chars(v));
    }
    text
}

} // verus!
