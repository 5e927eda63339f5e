//! Hex text: the protocol's frame constants are documented as hex strings,
//! two characters per byte, most-significant nibble first.  This module
//! converts between that text form and raw bytes.

use vstd::prelude::*;
use vstd::slice::slice_index_get;
use vstd::string::StrSliceExecFns;

verus! {

/// Whether `c` is a hex digit, upper or lower case.
pub open spec fn spec_is_hex_digit(c: char) -> bool {
    ||| c == '0' || c == '1' || c == '2' || c == '3' || c == '4'
    ||| c == '5' || c == '6' || c == '7' || c == '8' || c == '9'
    ||| c == 'a' || c == 'b' || c == 'c' || c == 'd' || c == 'e' || c == 'f'
    ||| c == 'A' || c == 'B' || c == 'C' || c == 'D' || c == 'E' || c == 'F'
}

/// Numeric value of a hex digit.
pub open spec fn spec_hex_digit_val(c: char) -> u8 {
    if c == '0' { 0 }
    else if c == '1' { 1 }
    else if c == '2' { 2 }
    else if c == '3' { 3 }
    else if c == '4' { 4 }
    else if c == '5' { 5 }
    else if c == '6' { 6 }
    else if c == '7' { 7 }
    else if c == '8' { 8 }
    else if c == '9' { 9 }
    else if c == 'a' || c == 'A' { 10 }
    else if c == 'b' || c == 'B' { 11 }
    else if c == 'c' || c == 'C' { 12 }
    else if c == 'd' || c == 'D' { 13 }
    else if c == 'e' || c == 'E' { 14 }
    else if c == 'f' || c == 'F' { 15 }
    else { 0 }
}

/// The bytes spelled by a hex string: each consecutive pair of digits is one
/// byte, most-significant nibble first.
pub open spec fn spec_hex_to_bytes(s: Seq<char>) -> Seq<u8> {
    Seq::new(
        s.len() / 2,
        |i: int| (16 * spec_hex_digit_val(s[2 * i]) + spec_hex_digit_val(s[2 * i + 1])) as u8,
    )
}

/// Upper-case hex digit of a nibble.
pub open spec fn spec_nibble_char_upper(n: u8) -> char {
    if n == 0 { '0' }
    else if n == 1 { '1' }
    else if n == 2 { '2' }
    else if n == 3 { '3' }
    else if n == 4 { '4' }
    else if n == 5 { '5' }
    else if n == 6 { '6' }
    else if n == 7 { '7' }
    else if n == 8 { '8' }
    else if n == 9 { '9' }
    else if n == 10 { 'A' }
    else if n == 11 { 'B' }
    else if n == 12 { 'C' }
    else if n == 13 { 'D' }
    else if n == 14 { 'E' }
    else { 'F' }
}

/// Upper-case hex text of a byte sequence, two digits per byte.
pub open spec fn spec_bytes_to_hex_upper(b: Seq<u8>) -> Seq<char> {
    Seq::new(
        2 * b.len(),
        |i: int|
            if i % 2 == 0 {
                spec_nibble_char_upper(b[i / 2] / 16)
            } else {
                spec_nibble_char_upper(b[i / 2] % 16)
            },
    )
}

/// Numeric value of a hex digit character.
fn hex_digit_val(c: char) -> (v: u8)
    requires
        spec_is_hex_digit(c),
    ensures
        v == spec_hex_digit_val(c),
        v < 16,
{
    if c == '0' { 0 }
    else if c == '1' { 1 }
    else if c == '2' { 2 }
    else if c == '3' { 3 }
    else if c == '4' { 4 }
    else if c == '5' { 5 }
    else if c == '6' { 6 }
    else if c == '7' { 7 }
    else if c == '8' { 8 }
    else if c == '9' { 9 }
    else if c == 'a' || c == 'A' { 10 }
    else if c == 'b' || c == 'B' { 11 }
    else if c == 'c' || c == 'C' { 12 }
    else if c == 'd' || c == 'D' { 13 }
    else if c == 'e' || c == 'E' { 14 }
    else { 15 }
}

/// Upper-case hex digit character of a nibble.
fn nibble_char_upper(n: u8) -> (c: char)
    requires
        n < 16,
    ensures
        c == spec_nibble_char_upper(n),
{
    if n == 0 { '0' }
    else if n == 1 { '1' }
    else if n == 2 { '2' }
    else if n == 3 { '3' }
    else if n == 4 { '4' }
    else if n == 5 { '5' }
    else if n == 6 { '6' }
    else if n == 7 { '7' }
    else if n == 8 { '8' }
    else if n == 9 { '9' }
    else if n == 10 { 'A' }
    else if n == 11 { 'B' }
    else if n == 12 { 'C' }
    else if n == 13 { 'D' }
    else if n == 14 { 'E' }
    else { 'F' }
}

/// Relies on String::push: it appends exactly the given character.
#[verifier::external_body]
fn push_char(s: &mut String, c: char)
    ensures
        final(s)@ == old(s)@.push(c),
{
    s.push(c);
}

/// Decodes a hex string into the bytes it spells.
pub fn convert_str_hex(hex: &str) -> (r: Vec<u8>)
    requires
        hex@.len() % 2 == 0,
        forall|i: int| 0 <= i < hex@.len() ==> spec_is_hex_digit(#[trigger] hex@[i]),
    ensures
        r@ =~= spec_hex_to_bytes(hex@),
{
    let n = hex.unicode_len();
    let mut out: Vec<u8> = Vec::new();
    let mut i: usize = 0;
    while i < n
        invariant
            n == hex@.len(),
            hex@.len() % 2 == 0,
            i % 2 == 0,
            i <= n,
            forall|k: int| 0 <= k < hex@.len() ==> spec_is_hex_digit(#[trigger] hex@[k]),
            out@.len() == i / 2,
            forall|j: int| 0 <= j < i / 2 ==> out@[j] == spec_hex_to_bytes(hex@)[j],
        decreases n - i,
    {
        let hi = hex_digit_val(hex.get_char(i));
        let lo = hex_digit_val(hex.get_char(i + 1));
        out.push(16 * hi + lo);
        i = i + 2;
    }
    out
}

/// Upper-case hex text of raw bytes, two digits per byte.
pub fn bytes_to_hex(data: &[u8]) -> (r: String)
    ensures
        r@ =~= spec_bytes_to_hex_upper(data@),
{
    let n = data.len();
    let mut s = String::new();
    let mut i: usize = 0;
    while i < n
        invariant
            n == data@.len(),
            i <= n,
            s@.len() == 2 * i,
            forall|j: int| 0 <= j < 2 * i ==> s@[j] == spec_bytes_to_hex_upper(data@)[j],
        decreases n - i,
    {
        let b = *slice_index_get(data, i);
        push_char(&mut s, nibble_char_upper(b / 16));
        push_char(&mut s, nibble_char_upper(b % 16));
        i = i + 1;
    }
    s
}

} // verus!
