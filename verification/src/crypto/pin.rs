//! The 6-digit PIN, validated once at the boundary.

use vstd::prelude::*;

use crate::crypto::{bytes_equal, wipe_text};
use crate::text::opt_text;
use crate::error::{ClipError, InvalidReason, invalid_view};

verus! {

/// Exactly six, exactly ASCII digits.
pub const PIN_LEN: usize = 6;

/// Whether a text is a PIN: six characters, each an ASCII digit. Not
/// `char::is_numeric`, which would accept Arabic-Indic or fullwidth digits.
pub open spec fn is_pin_text(s: Seq<char>) -> bool {
    s.len() == PIN_LEN && forall|i: int| 0 <= i < s.len() ==> '0' <= #[trigger] s[i] <= '9'
}

/// What parsing an argument gives: `required` when absent, `not_six_digits`
/// when present and not a PIN. The rejected value is never carried.
pub open spec fn pin_outcome(field: Seq<char>, value: Option<Seq<char>>) -> Result<
    Seq<char>,
    crate::error::ErrorView,
> {
    match value {
        None => Err(invalid_view(field, InvalidReason::Required)),
        Some(v) => if is_pin_text(v) {
            Ok(v)
        } else {
            Err(invalid_view(field, InvalidReason::NotSixDigits))
        },
    }
}

/// A validated PIN. No `Debug`: nothing can print it.
#[derive(Clone)]
pub struct Pin(String);

impl View for Pin {
    type V = Seq<char>;

    closed spec fn view(&self) -> Seq<char> {
        self.0@
    }
}

impl Pin {
    /// How the value reads in a log line: a fixed string that carries none
    /// of it.
    pub fn describe(&self) -> (r: String)
        ensures
            r@ == "Pin(<redacted>)"@,
    {
        String::from_str("Pin(<redacted>)")
    }

    /// Overwrite the PIN's digits with zeroes and empty it. Call it before
    /// the PIN is dropped.
    pub fn wipe(&mut self)
        ensures
            final(self)@.len() == 0,
    {
        wipe_text(&mut self.0);
    }

    /// Parse an argument from the wire. `None` is an absent argument.
    pub fn parse(field: &str, value: Option<String>) -> (r: Result<Pin, ClipError>)
        ensures
            match pin_outcome(field@, opt_text(value)) {
                Ok(digits) => r matches Ok(p) && p@ == digits,
                Err(e) => r matches Err(got) && got@ == e,
            },
    {
        let value = match value {
            Some(value) => value,
            None => {
                return Err(ClipError::InvalidInput {
                    field: field.to_owned(),
                    reason: InvalidReason::Required,
                });
            },
        };
        let n = value.as_str().unicode_len();
        let mut digits: bool = n == PIN_LEN;
        let mut i: usize = 0;
        while i < n
            invariant
                n == value@.len(),
                i <= n,
                digits == (n == PIN_LEN && forall|j: int| 0 <= j < i ==> '0' <= #[trigger] value@[j] <= '9'),
            decreases n - i,
        {
            let c = value.as_str().get_char(i);
            if !('0' <= c && c <= '9') {
                digits = false;
            }
            i = i + 1;
        }
        if !digits {
            // The rejected value is neither logged nor echoed: it is a PIN, or
            // a typo one keystroke away from one.
            let mut rejected = value;
            wipe_text(&mut rejected);
            return Err(ClipError::InvalidInput {
                field: field.to_owned(),
                reason: InvalidReason::NotSixDigits,
            });
        }
        Ok(Pin(value))
    }

    /// The bytes the KDF consumes, and nothing else: the UTF-8 encoding of the
    /// digits, one byte per digit.
    pub fn expose(&self) -> (r: &[u8])
        ensures
            r@ == vstd::utf8::encode_utf8(self@),
    {
        self.0.as_str().as_bytes()
    }

    /// Constant-time equality of two PINs.
    pub fn same_pin(&self, other: &Pin) -> (r: bool)
        ensures
            r == (self@ == other@),
    {
        let a = self.expose();
        let b = other.expose();
        proof {
            vstd::utf8::encode_utf8_decode_utf8(self@);
            vstd::utf8::encode_utf8_decode_utf8(other@);
        }
        bytes_equal(a, b)
    }
}

impl PartialEq for Pin {
    fn eq(&self, other: &Self) -> (r: bool) {
        self.same_pin(other)
    }
}

impl vstd::std_specs::cmp::PartialEqSpecImpl for Pin {
    open spec fn obeys_eq_spec() -> bool {
        true
    }

    open spec fn eq_spec(&self, other: &Self) -> bool {
        self@ == other@
    }
}

impl Eq for Pin {}

} // verus!
