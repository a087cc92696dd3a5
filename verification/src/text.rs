//! Character-level helpers over `&str`, stated over the character sequence.
//!
//! Lengths are counted in Unicode scalar values throughout, the unit every
//! limit in this crate is expressed in.

use vstd::prelude::*;

verus! {

/// An optional text, taken by its characters.
pub open spec fn opt_text(o: Option<String>) -> Option<Seq<char>> {
    match o {
        Some(s) => Some(s@),
        None => None,
    }
}

/// Whether two texts hold the same characters.
pub fn same_text(a: &str, b: &str) -> (r: bool)
    ensures
        r == (a@ == b@),
{
    let n = a.unicode_len();
    if n != b.unicode_len() {
        return false;
    }
    let mut i: usize = 0;
    while i < n
        invariant
            n == a@.len(),
            n == b@.len(),
            i <= n,
            forall|j: int| 0 <= j < i ==> a@[j] == b@[j],
        decreases n - i,
    {
        if a.get_char(i) != b.get_char(i) {
            return false;
        }
        i = i + 1;
    }
    assert(a@ =~= b@);
    true
}

/// Unicode general category `Cc`: the C0 and C1 control codes and DEL, which
/// is exactly what `char::is_control` answers.
pub open spec fn is_control_char(c: char) -> bool {
    (c as u32) <= 0x1f || (0x7f <= (c as u32) && (c as u32) <= 0x9f)
}

/// The Unicode `White_Space` property, which is exactly what
/// `char::is_whitespace` answers and what `str::trim` removes.
pub open spec fn is_white_space(c: char) -> bool {
    let u = c as u32;
    ||| (0x09 <= u && u <= 0x0d)
    ||| u == 0x20
    ||| u == 0x85
    ||| u == 0xa0
    ||| u == 0x1680
    ||| (0x2000 <= u && u <= 0x200a)
    ||| u == 0x2028
    ||| u == 0x2029
    ||| u == 0x202f
    ||| u == 0x205f
    ||| u == 0x3000
}

/// Whether a text is empty once surrounding white space is trimmed: every
/// character in it is white space.
pub open spec fn is_blank(s: Seq<char>) -> bool {
    forall|i: int| 0 <= i < s.len() ==> is_white_space(#[trigger] s[i])
}

/// Whether a text holds a control character.
pub open spec fn has_control(s: Seq<char>) -> bool {
    exists|i: int| 0 <= i < s.len() && is_control_char(#[trigger] s[i])
}

/// `char::is_control`.
pub fn char_is_control(c: char) -> (r: bool)
    ensures
        r == is_control_char(c),
{
    let u = c as u32;
    u <= 0x1f || (0x7f <= u && u <= 0x9f)
}

/// `char::is_whitespace`.
pub fn char_is_white_space(c: char) -> (r: bool)
    ensures
        r == is_white_space(c),
{
    let u = c as u32;
    (0x09 <= u && u <= 0x0d) || u == 0x20 || u == 0x85 || u == 0xa0 || u == 0x1680 || (0x2000
        <= u && u <= 0x200a) || u == 0x2028 || u == 0x2029 || u == 0x202f || u == 0x205f || u
        == 0x3000
}

/// `text.trim().is_empty()`.
pub fn text_is_blank(text: &str) -> (r: bool)
    ensures
        r == is_blank(text@),
{
    let n = text.unicode_len();
    let mut all: bool = true;
    for c in iter: text.chars()
        invariant
            n == text@.len(),
            iter.seq() == text@,
            all == (forall|j: int| 0 <= j < iter.index() ==> is_white_space(#[trigger] text@[j])),
    {
        if !char_is_white_space(c) {
            all = false;
        }
    }
    all
}

/// `text.chars().any(char::is_control)`.
pub fn text_has_control(text: &str) -> (r: bool)
    ensures
        r == has_control(text@),
{
    let n = text.unicode_len();
    let mut any: bool = false;
    for c in iter: text.chars()
        invariant
            n == text@.len(),
            iter.seq() == text@,
            any == (exists|j: int| 0 <= j < iter.index() && is_control_char(#[trigger] text@[j])),
    {
        if char_is_control(c) {
            any = true;
        }
    }
    any
}

/// Append one character to a text (`String::push`).
#[verifier::external_body]
pub(crate) fn push_char(text: &mut String, c: char)
    ensures
        final(text)@ == old(text)@.push(c),
{
    text.push(c)
}

/// The decimal digit for a value below ten.
pub open spec fn digit_char(d: nat) -> char {
    (('0' as nat) + d) as char
}

/// `n` in decimal, most significant digit first, with no leading zeros.
pub open spec fn decimal(n: nat) -> Seq<char>
    decreases n,
{
    if n < 10 {
        seq![digit_char(n)]
    } else {
        decimal(n / 10).push(digit_char(n % 10))
    }
}

/// `n.to_string()` for an unsigned integer: its decimal digits.
pub fn decimal_text(n: u64) -> (r: String)
    ensures
        r@ == decimal(n as nat),
    decreases n,
{
    let digit = (('0' as u8) + ((n % 10) as u8)) as char;
    assert(digit == digit_char((n % 10) as nat));
    if n < 10 {
        let mut text = String::new();
        push_char(&mut text, digit);
        assert(text@ =~= seq![digit_char(n as nat)]);
        text
    } else {
        let mut text = decimal_text(n / 10);
        push_char(&mut text, digit);
        text
    }
}

/// `n` in decimal, with a leading `-` when negative.
pub open spec fn signed_decimal(n: int) -> Seq<char> {
    if n < 0 {
        seq!['-'] + decimal((-n) as nat)
    } else {
        decimal(n as nat)
    }
}

/// `n.to_string()` for a signed integer.
pub fn signed_decimal_text(n: i64) -> (r: String)
    ensures
        r@ == signed_decimal(n as int),
{
    if n < 0 {
        let magnitude: u64 = (0i128 - (n as i128)) as u64;
        let digits = decimal_text(magnitude);
        let mut text = String::new();
        push_char(&mut text, '-');
        text.append(digits.as_str());
        assert(text@ =~= seq!['-'] + decimal((-n) as nat));
        text
    } else {
        decimal_text(n as u64)
    }
}

/// A character with ASCII `A`..=`Z` mapped to `a`..=`z` and every other
/// character unchanged (`char::to_ascii_lowercase`).
pub open spec fn ascii_lower(c: char) -> char {
    if 'A' <= c && c <= 'Z' { ((c as u32) + 32) as char } else { c }
}

/// Whether two texts are equal ignoring ASCII case.
pub open spec fn same_ignoring_ascii_case(a: Seq<char>, b: Seq<char>) -> bool {
    a.len() == b.len() && forall|i: int| 0 <= i < a.len() ==> ascii_lower(#[trigger] a[i]) == ascii_lower(b[i])
}

/// `str::eq_ignore_ascii_case`.
pub fn eq_ignore_ascii_case(a: &str, b: &str) -> (r: bool)
    ensures
        r == same_ignoring_ascii_case(a@, b@),
{
    let n = a.unicode_len();
    if n != b.unicode_len() {
        return false;
    }
    let mut i: usize = 0;
    while i < n
        invariant
            n == a@.len(),
            n == b@.len(),
            i <= n,
            forall|j: int| 0 <= j < i ==> ascii_lower(#[trigger] a@[j]) == ascii_lower(b@[j]),
        decreases n - i,
    {
        let x = a.get_char(i);
        let y = b.get_char(i);
        let lx = if 'A' <= x && x <= 'Z' { ((x as u32) + 32) as u8 as char } else { x };
        let ly = if 'A' <= y && y <= 'Z' { ((y as u32) + 32) as u8 as char } else { y };
        assert(lx == ascii_lower(x));
        assert(ly == ascii_lower(y));
        if lx != ly {
            return false;
        }
        i = i + 1;
    }
    true
}

} // verus!
