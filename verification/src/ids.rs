//! Clip identity: a 128-bit UUID, minted by the backend, parsed from text
//! case-insensitively and always written lowercase and hyphenated.

use vstd::prelude::*;

use uuid::{Builder, Uuid};

use crate::crypto::fill_random;
use crate::error::{ClipError, ErrorView};

verus! {

/// A clip's identifier, as the 128-bit value of its UUID (most significant
/// byte first, as `Uuid::as_u128` gives it).
pub type ClipId = u128;

/// The hexadecimal digit for a value below 16, lowercase.
pub open spec fn hex_char(v: int) -> char {
    if v < 10 { (('0' as int) + v) as char } else { (('a' as int) + v - 10) as char }
}

/// The `k`-th hexadecimal digit of a 128-bit value, most significant first.
pub open spec fn nibble(id: u128, k: int) -> int {
    (id as int / vstd::arithmetic::power::pow(16, (31 - k) as nat)) % 16
}

/// Which hexadecimal digit sits at position `i` of the hyphenated form.
pub open spec fn digit_at(i: int) -> int {
    if i < 8 { i } else if i < 13 { i - 1 } else if i < 18 { i - 2 } else if i < 23 { i - 3 } else { i - 4 }
}

/// The lowercase hyphenated form, 36 characters: 8-4-4-4-12 hexadecimal
/// digits, most significant first.
pub open spec fn hyphenated(id: u128) -> Seq<char> {
    Seq::new(
        36,
        |i: int|
            if i == 8 || i == 13 || i == 18 || i == 23 { '-' } else { hex_char(nibble(id, digit_at(i))) },
    )
}

/// What `uuid::Uuid::parse_str` accepts and yields for a text: simple,
/// hyphenated, braced or URN hexadecimal, in either case.
pub uninterp spec fn uuid_parsed(text: Seq<char>) -> Option<u128>;

/// Parse a UUID from text (`Uuid::parse_str`, then `as_u128`). The result is
/// `uuid_parsed` of the text; and, as the crate documents, the hyphenated form
/// it writes parses back to the value it was written from.
#[verifier::external_body]
pub(crate) fn parse_uuid_text(text: &str) -> (r: Option<ClipId>)
    ensures
        r == uuid_parsed(text@),
        r is None ==> forall|x: u128| #[trigger] hyphenated(x) != text@,
        r matches Some(v) ==> forall|x: u128| #[trigger] hyphenated(x) == text@ ==> v == x,
{
    Uuid::parse_str(text).ok().map(|id| id.as_u128())
}

/// The lowercase hyphenated form of an identifier
/// (`Uuid::from_u128(id).as_hyphenated().to_string()`).
#[verifier::external_body]
pub(crate) fn uuid_text(id: ClipId) -> (r: String)
    ensures
        r@ == hyphenated(id),
{
    Uuid::from_u128(id).as_hyphenated().to_string()
}

/// Sixteen bytes read as one 128-bit value, most significant first
/// (`Uuid::from_bytes`, then `as_u128`).
pub open spec fn be_u128(b: Seq<u8>) -> u128 {
    (b[0] as u128) << 120u128 | (b[1] as u128) << 112u128 | (b[2] as u128) << 104u128
        | (b[3] as u128) << 96u128 | (b[4] as u128) << 88u128 | (b[5] as u128) << 80u128
        | (b[6] as u128) << 72u128 | (b[7] as u128) << 64u128 | (b[8] as u128) << 56u128
        | (b[9] as u128) << 48u128 | (b[10] as u128) << 40u128 | (b[11] as u128) << 32u128
        | (b[12] as u128) << 24u128 | (b[13] as u128) << 16u128 | (b[14] as u128) << 8u128
        | (b[15] as u128)
}

/// The bits a random (version 4) UUID of the RFC 4122 variant fixes: the
/// version nibble (bits 76 to 79) and the variant's two top bits (62, 63).
pub open spec fn fixed_bits_mask() -> u128 {
    0x0000_0000_0000_f000_c000_0000_0000_0000u128
}

/// Their values: version 4, variant `10`.
pub open spec fn fixed_bits() -> u128 {
    0x0000_0000_0000_4000_8000_0000_0000_0000u128
}

/// The identifier `Builder::from_random_bytes` makes of sixteen bytes: their
/// value with the version set to 4 and the variant to RFC 4122.
pub open spec fn random_v4_id(bytes: Seq<u8>) -> u128 {
    (be_u128(bytes) & !fixed_bits_mask()) | fixed_bits()
}

/// Whether an identifier is a random (version 4) UUID of the RFC 4122
/// variant.
pub open spec fn is_random_v4(id: u128) -> bool {
    id & fixed_bits_mask() == fixed_bits()
}

/// An identifier from sixteen random bytes
/// (`Builder::from_random_bytes(..).into_uuid().as_u128()`): the bytes, most
/// significant first, with the version and variant bits set.
#[verifier::external_body]
fn random_id(bytes: [u8; 16]) -> (r: ClipId)
    ensures
        r == random_v4_id(bytes@),
{
    Builder::from_random_bytes(bytes).into_uuid().as_u128()
}

/// A fresh random (version 4) identifier, from sixteen bytes of the
/// operating system's generator. Chance decides the other 122 bits, so only
/// the version and variant are claimed. A generator that fails is `storage`,
/// not a panic.
pub fn mint_id() -> (r: Result<ClipId, ClipError>)
    ensures
        r matches Ok(id) ==> is_random_v4(id),
        r matches Err(e) ==> e@ == ErrorView::Storage,
{
    let mut bytes = [0u8; 16];
    fill_random(&mut bytes)?;
    let id = random_id(bytes);
    let ghost value = be_u128(bytes@);
    assert(((value & !0x0000_0000_0000_f000_c000_0000_0000_0000u128) | 0x0000_0000_0000_4000_8000_0000_0000_0000u128)
        & 0x0000_0000_0000_f000_c000_0000_0000_0000u128 == 0x0000_0000_0000_4000_8000_0000_0000_0000u128) by (bit_vector);
    Ok(id)
}

} // verus!
