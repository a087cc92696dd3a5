//! The statements that key and configure the one connection to the live
//! store.
//!
//! `PRAGMA key` and the `KEY` clause of `ATTACH` cannot take a bound
//! parameter, so the DEK is in their text: the error of either statement is
//! never formatted, and the text is wiped once used.

use vstd::prelude::*;

use crate::crypto::dek::DEK_LEN;
use crate::crypto::Dek;
use crate::error::ClipError;
use crate::ids::hex_char;
use crate::text::{eq_ignore_ascii_case, push_char, same_ignoring_ascii_case};

verus! {

/// The wait, in milliseconds, a second FastClip process is worth before the
/// user is told the store failed.
pub const BUSY_TIMEOUT_MS: u64 = 5000;

/// Bytes as lowercase hexadecimal, two digits each, in order.
pub open spec fn hex_of(bytes: Seq<u8>) -> Seq<char>
    decreases bytes.len(),
{
    if bytes.len() == 0 {
        Seq::empty()
    } else {
        hex_of(bytes.drop_last()).push(hex_char(bytes.last() as int / 16)).push(hex_char(bytes.last() as int % 16))
    }
}

/// SQLCipher's raw-key literal for a key: `x'<64 hex digits>'`.
pub open spec fn raw_key_text(key: Seq<u8>) -> Seq<char> {
    seq!['x', '\''] + hex_of(key) + seq!['\'']
}

/// The hexadecimal digit for a value below sixteen.
fn hex_digit(v: u8) -> (c: char)
    requires
        v < 16,
    ensures
        c == hex_char(v as int),
{
    if v < 10 {
        (('0' as u8) + v) as char
    } else {
        (('a' as u8) + v - 10) as char
    }
}

/// The DEK as SQLCipher's raw-key literal. A raw key bypasses SQLCipher's
/// own key derivation: the entropy is the DEK, and Argon2id is applied to the
/// PIN elsewhere. Sixty-four hex digits is what makes SQLCipher read it as key
/// bytes rather than a passphrase.
pub fn raw_key_literal(dek: &Dek) -> (r: String)
    ensures
        r@ == raw_key_text(dek@),
{
    let bytes = dek.expose();
    let mut literal = String::from_str("x'");
    proof {
        reveal_strlit("x'");
        assert(hex_of(bytes@.subrange(0, 0)) =~= Seq::empty());
        assert(literal@ =~= seq!['x', '\''] + hex_of(bytes@.subrange(0, 0)));
    }
    let mut i: usize = 0;
    while i < DEK_LEN
        invariant
            i <= DEK_LEN,
            bytes@ == dek@,
            bytes@.len() == DEK_LEN,
            literal@ == seq!['x', '\''] + hex_of(bytes@.subrange(0, i as int)),
        decreases DEK_LEN - i,
    {
        let b = bytes[i];
        push_char(&mut literal, hex_digit(b / 16));
        push_char(&mut literal, hex_digit(b % 16));
        proof {
            let prefix = bytes@.subrange(0, i + 1);
            assert(prefix.drop_last() =~= bytes@.subrange(0, i as int));
            assert(prefix.last() == b);
        }
        i = i + 1;
    }
    push_char(&mut literal, '\'');
    assert(bytes@.subrange(0, DEK_LEN as int) =~= bytes@);
    literal
}

/// `PRAGMA key = "<raw key literal>";`, the first statement on a keyed
/// connection.
pub fn key_pragma(dek: &Dek) -> (r: String)
    ensures
        r@ == "PRAGMA key = \""@ + raw_key_text(dek@) + "\";"@,
{
    let mut statement = String::from_str("PRAGMA key = \"");
    let literal = raw_key_literal(dek);
    statement.append(literal.as_str());
    statement.append("\";");
    statement
}

/// Judge the journal mode `PRAGMA journal_mode = WAL` answered. A read-only
/// file or directory refuses WAL and reports the old mode rather than an
/// error; continuing would give up crash safety silently, so anything but
/// `wal` (in any case) is `storage`.
pub fn check_journal_mode(mode: &str) -> (r: Result<(), ClipError>)
    ensures
        r is Ok <==> same_ignoring_ascii_case(mode@, "wal"@),
        r matches Err(e) ==> e == ClipError::Storage,
{
    if eq_ignore_ascii_case(mode, "wal") {
        Ok(())
    } else {
        Err(ClipError::Storage)
    }
}

} // verus!
