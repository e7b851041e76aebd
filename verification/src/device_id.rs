//! Device-id derivation: a stable id is the lowercase hex SHA-1 digest of
//! the configured device name.

use vstd::prelude::*;

verus! {

/// The SHA-1 digest of a string's UTF-8 bytes. Stating the algorithm
/// itself would prove nothing; the digest is named and the sha1 crate is
/// relied on to compute it.
pub uninterp spec fn sha1_of(s: Seq<char>) -> Seq<u8>;

/// The character for one hex digit, lowercase.
pub open spec fn hex_digit(d: nat) -> char {
    if d == 0 {
        '0'
    } else if d == 1 {
        '1'
    } else if d == 2 {
        '2'
    } else if d == 3 {
        '3'
    } else if d == 4 {
        '4'
    } else if d == 5 {
        '5'
    } else if d == 6 {
        '6'
    } else if d == 7 {
        '7'
    } else if d == 8 {
        '8'
    } else if d == 9 {
        '9'
    } else if d == 10 {
        'a'
    } else if d == 11 {
        'b'
    } else if d == 12 {
        'c'
    } else if d == 13 {
        'd'
    } else if d == 14 {
        'e'
    } else {
        'f'
    }
}

/// One byte as two lowercase hex digits, high nibble first.
pub open spec fn hex_byte(b: u8) -> Seq<char> {
    seq![hex_digit((b / 16) as nat), hex_digit((b % 16) as nat)]
}

/// A byte sequence in lowercase hex: two digits per byte, in order.
pub open spec fn hex_lower_of(bytes: Seq<u8>) -> Seq<char>
    decreases bytes.len(),
{
    if bytes.len() == 0 {
        Seq::empty()
    } else {
        hex_byte(bytes[0]) + hex_lower_of(bytes.drop_first())
    }
}

/// Hex doubles the length.
pub proof fn lemma_hex_lower_len(bytes: Seq<u8>)
    ensures
        hex_lower_of(bytes).len() == 2 * bytes.len(),
    decreases bytes.len(),
{
    if bytes.len() > 0 {
        lemma_hex_lower_len(bytes.drop_first());
    }
}

/// Relies on the sha1 crate's `Sha1` through `Digest::digest`: the SHA-1
/// digest of the input's UTF-8 bytes, a function of the input alone,
/// always 20 bytes long.
#[verifier::external_body]
fn sha1_digest(input: &str) -> (r: Vec<u8>)
    ensures
        r@ == sha1_of(input@),
        r@.len() == 20,
{
    <sha1::Sha1 as sha1::Digest>::digest(input.as_bytes()).to_vec()
}

/// Relies on data_encoding's `HEXLOWER.encode`: two lowercase hex digits
/// for each input byte, in order.
#[verifier::external_body]
fn hex_lower(bytes: &[u8]) -> (r: String)
    ensures
        r@ == hex_lower_of(bytes@),
{
    data_encoding::HEXLOWER.encode(bytes)
}

/// The device id a device name maps to: the lowercase hex SHA-1 of the
/// name; forty hex digits.
pub fn device_id_from_name(name: &str) -> (r: String)
    ensures
        r@ == hex_lower_of(sha1_of(name@)),
        r@.len() == 40,
{
    let digest = sha1_digest(name);
    let id = hex_lower(digest.as_slice());
    proof {
        lemma_hex_lower_len(sha1_of(name@));
    }
    id
}

} // verus!
