//! The data encryption key: 256 bits of operating-system randomness.

use vstd::prelude::*;

use crate::crypto::{bytes_equal, fill_random, wipe_key_bytes, zero_key};
use crate::error::{ClipError, ErrorView};

verus! {

/// The DEK's length in bytes. SQLCipher takes exactly this as a raw key.
pub const DEK_LEN: usize = 32;

/// The key the store is encrypted with. It has no `Debug`: nothing can print
/// it.
pub struct Dek([u8; DEK_LEN]);

impl View for Dek {
    type V = Seq<u8>;

    closed spec fn view(&self) -> Seq<u8> {
        self.0@
    }
}

/// Every key is 256 bits.
pub proof fn lemma_dek_len(d: Dek)
    ensures
        d@.len() == DEK_LEN,
{
}

impl Dek {
    /// How the value reads in a log line: a fixed string that carries none
    /// of it.
    pub fn describe(&self) -> (r: String)
        ensures
            r@ == "Dek(<redacted>)"@,
    {
        String::from_str("Dek(<redacted>)")
    }

    /// A fresh key from the operating system's CSPRNG. There is no other
    /// source of DEKs and no path that derives one from a PIN.
    pub fn generate() -> (r: Result<Dek, ClipError>)
        ensures
            r matches Ok(d) ==> d@.len() == DEK_LEN,
            r matches Err(e) ==> e@ == ErrorView::Storage,
    {
        let mut bytes = [0u8; DEK_LEN];
        match fill_random(&mut bytes) {
            Ok(()) => Ok(Dek(bytes)),
            Err(error) => Err(error),
        }
    }

    /// Overwrite the key with zeroes. Call it before the key is dropped:
    /// nothing else clears the memory it lived in.
    pub fn wipe(&mut self)
        ensures
            final(self)@ == zero_key(),
    {
        wipe_key_bytes(&mut self.0);
    }

    /// Rebuild a key from bytes that were just unwrapped.
    pub fn from_bytes(bytes: [u8; DEK_LEN]) -> (r: Dek)
        ensures
            r@ == bytes@,
    {
        Dek(bytes)
    }

    /// The raw bytes, for the wrap and for SQLCipher and nothing else.
    pub fn expose(&self) -> (r: &[u8; DEK_LEN])
        ensures
            r@ == self@,
    {
        &self.0
    }

    /// Constant-time equality of two keys.
    pub fn same_key(&self, other: &Dek) -> (r: bool)
        ensures
            r == (self@ == other@),
    {
        bytes_equal(self.0.as_slice(), other.0.as_slice())
    }
}

impl PartialEq for Dek {
    fn eq(&self, other: &Self) -> (r: bool) {
        self.same_key(other)
    }
}

impl vstd::std_specs::cmp::PartialEqSpecImpl for Dek {
    open spec fn obeys_eq_spec() -> bool {
        true
    }

    open spec fn eq_spec(&self, other: &Self) -> bool {
        self@ == other@
    }
}

impl Eq for Dek {}

impl Clone for Dek {
    /// The same key.
    fn clone(&self) -> (r: Dek)
        ensures
            r@ == self@,
    {
        Dek(self.0)
    }
}

} // verus!
