//! Text encodings of byte strings: hexadecimal and URL-safe base64.

use vstd::prelude::*;
use crate::text::{hex_digit, hex_pair, hex_text, lemma_hex_text_len};

verus! {

/// The value of a hexadecimal digit in either case, `None` for any other character.
pub open spec fn hex_value(c: char) -> Option<u8> {
    let n = c as u32;
    if 48 <= n <= 57 {
        Some((n - 48) as u8)
    } else if 97 <= n <= 102 {
        Some((n - 87) as u8)
    } else if 65 <= n <= 70 {
        Some((n - 55) as u8)
    } else {
        None
    }
}

/// Whether every character of `s` is a hexadecimal digit.
pub open spec fn all_hex_digits(s: Seq<char>) -> bool {
    forall|i: int| 0 <= i < s.len() ==> (#[trigger] hex_value(s[i])) is Some
}

/// The byte that the digit pair at position `i` of `s` stands for.
pub open spec fn hex_byte_at(s: Seq<char>, i: int) -> u8 {
    (hex_value(s[2 * i]).unwrap() * 16 + hex_value(s[2 * i + 1]).unwrap()) as u8
}

/// The bytes that a hexadecimal string stands for: defined when the string has
/// an even number of characters, all of them hexadecimal digits of either case.
pub open spec fn hex_decoding(s: Seq<char>) -> Option<Seq<u8>> {
    if s.len() % 2 == 0 && all_hex_digits(s) {
        Some(Seq::new(s.len() / 2, |i: int| hex_byte_at(s, i)))
    } else {
        None
    }
}

/// A hexadecimal digit character has the value it was made from.
pub proof fn lemma_hex_value_of_digit(d: int)
    requires
        0 <= d < 16,
    ensures
        hex_value(hex_digit(d)) == Some(d as u8),
{
}

/// The characters of a hexadecimal rendering, position by position.
pub proof fn lemma_hex_text_index(bytes: Seq<u8>, i: int)
    requires
        0 <= i < bytes.len(),
    ensures
        hex_text(bytes).len() == 2 * bytes.len(),
        hex_text(bytes)[2 * i] == hex_digit((bytes[i] / 16) as int),
        hex_text(bytes)[2 * i + 1] == hex_digit((bytes[i] % 16) as int),
    decreases bytes.len(),
{
    lemma_hex_text_len(bytes);
    lemma_hex_text_len(bytes.drop_last());
    if i < bytes.len() - 1 {
        lemma_hex_text_index(bytes.drop_last(), i);
    } else {
        assert(hex_pair(bytes.last())[0] == hex_digit((bytes[i] / 16) as int));
        assert(hex_pair(bytes.last())[1] == hex_digit((bytes[i] % 16) as int));
    }
}

/// Decoding the lower-case hexadecimal rendering of a byte string gives the
/// byte string back.
pub proof fn lemma_hex_round_trip(bytes: Seq<u8>)
    ensures
        hex_decoding(hex_text(bytes)) == Some(bytes),
{
    let s = hex_text(bytes);
    lemma_hex_text_len(bytes);
    assert forall|j: int| 0 <= j < s.len() implies (#[trigger] hex_value(s[j])) is Some by {
        let i = j / 2;
        lemma_hex_text_index(bytes, i);
        lemma_hex_value_of_digit((bytes[i] / 16) as int);
        lemma_hex_value_of_digit((bytes[i] % 16) as int);
        if j % 2 == 0 {
            assert(j == 2 * i);
        } else {
            assert(j == 2 * i + 1);
        }
    }
    let decoded = Seq::new(s.len() / 2, |i: int| hex_byte_at(s, i));
    assert forall|i: int| 0 <= i < bytes.len() implies decoded[i] == bytes[i] by {
        lemma_hex_text_index(bytes, i);
        lemma_hex_value_of_digit((bytes[i] / 16) as int);
        lemma_hex_value_of_digit((bytes[i] % 16) as int);
    }
    assert(decoded =~= bytes);
}

/// Calls `hex::decode`. It accepts a string of an even number of hexadecimal
/// digits, upper and lower case mixed freely, and returns the byte that each
/// pair of digits denotes, the first digit being the high half; any other
/// string is an error, which is given as `None` here.
#[verifier::external_body]
pub(crate) fn hex_decode(s: &str) -> (r: Option<Vec<u8>>)
    ensures
        r is Some <==> hex_decoding(s@) is Some,
        r is Some ==> r.unwrap()@ == hex_decoding(s@).unwrap(),
{
    hex::decode(s).ok()
}

} // verus!
