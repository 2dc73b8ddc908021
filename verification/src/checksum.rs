//! The integrity value that goes with an upload: Drive gives a file's hash
//! in hexadecimal, the destination takes it in base64.

use vstd::prelude::*;
use crate::file::opt_text;

verus! {

#[verifier::external_type_specification]
#[verifier::external_body]
pub struct ExFromHexError(hex::FromHexError);

/// The value of a hexadecimal digit, of either case.
pub open spec fn hex_digit_value(c: char) -> Option<int> {
    if '0' <= c <= '9' {
        Some(c as int - '0' as int)
    } else if 'a' <= c <= 'f' {
        Some(c as int - 'a' as int + 10)
    } else if 'A' <= c <= 'F' {
        Some(c as int - 'A' as int + 10)
    } else {
        None
    }
}

/// Whether a text is an even number of hexadecimal digits.
pub open spec fn is_hex_text(text: Seq<char>) -> bool {
    &&& text.len() % 2 == 0
    &&& forall|i: int| 0 <= i < text.len() ==> (#[trigger] hex_digit_value(text[i])) is Some
}

/// The bytes that a hexadecimal text spells: one for each pair of digits,
/// the first digit of a pair being the high half.
pub open spec fn hex_bytes(text: Seq<char>) -> Seq<u8> {
    Seq::new(
        text.len() / 2,
        |i: int|
            (16 * hex_digit_value(text[2 * i]).unwrap() + hex_digit_value(
                text[2 * i + 1],
            ).unwrap()) as u8,
    )
}

/// The base64 encoding of a sequence of bytes, in the standard alphabet and
/// with padding, as the `base64` crate computes it.
pub uninterp spec fn base64_standard(bytes: Seq<u8>) -> Seq<char>;

/// Decodes a hexadecimal text with `hex::decode`.
/// Trusted: it succeeds exactly on an even number of hexadecimal digits, of
/// either case, and then gives the byte that each pair spells.
#[verifier::external_body]
fn hex_decode(text: &str) -> (r: Result<Vec<u8>, hex::FromHexError>)
    ensures
        match r {
            Ok(bytes) => is_hex_text(text@) && bytes@ == hex_bytes(text@),
            Err(_) => !is_hex_text(text@),
        },
{
    hex::decode(text)
}

/// Encodes bytes with `base64::encode`.
/// Trusted: the outcome is a function of the bytes alone, named
/// [`base64_standard`]. The length is bounded because the encoder panics
/// where the size of the encoding overflows `usize`.
#[verifier::external_body]
fn base64_encode(bytes: &Vec<u8>) -> (r: String)
    requires
        bytes@.len() <= usize::MAX / 2,
    ensures
        r@ == base64_standard(bytes@),
{
    base64::encode(bytes)
}

/// The integrity value for a checksum in hexadecimal: the base64 encoding of
/// the bytes that it spells. `None` where the checksum is not hexadecimal.
pub open spec fn integrity_value(checksum: Seq<char>) -> Option<Seq<char>> {
    if is_hex_text(checksum) {
        Some(base64_standard(hex_bytes(checksum)))
    } else {
        None
    }
}

/// Converts a checksum from hexadecimal to base64.
pub fn content_md5(checksum: &str) -> (r: Option<String>)
    ensures
        opt_text(r) == integrity_value(checksum@),
{
    let digits = checksum.unicode_len();
    match hex_decode(checksum) {
        Ok(bytes) => {
            assert(bytes@.len() == checksum@.len() / 2);
            Some(base64_encode(&bytes))
        },
        Err(_) => None,
    }
}

/// A hexadecimal text of `2 * n` digits spells `n` bytes, and each byte is
/// made of its own two digits only.
pub proof fn lemma_hex_bytes_pairwise(text: Seq<char>, i: int)
    requires
        is_hex_text(text),
        0 <= i < text.len() / 2,
    ensures
        hex_bytes(text).len() * 2 == text.len(),
        hex_bytes(text)[i] == 16 * hex_digit_value(text[2 * i]).unwrap() + hex_digit_value(
            text[2 * i + 1],
        ).unwrap(),
{
    let hi = hex_digit_value(text[2 * i]);
    let lo = hex_digit_value(text[2 * i + 1]);
    assert(hi is Some && lo is Some);
    assert(0 <= hi.unwrap() < 16 && 0 <= lo.unwrap() < 16);
}

} // verus!
