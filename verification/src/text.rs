//! Character-level helpers for request validation and output decoding.
//!
//! The blank-code test and the language test are written out over the
//! character sequences of the inputs, so their contracts speak directly
//! about every character. Decoding captured output bytes to text is done
//! permissively; the decoder is the library's single trusted item.

use vstd::prelude::*;
use vstd::string::StrSliceExecFns;

verus! {

/// A character with the Unicode `White_Space` property, the set that
/// `str::trim` removes at either end of a string.
pub open spec fn is_space_char(c: char) -> bool {
    let u = c as u32;
    u == 0x09 || u == 0x0A || u == 0x0B || u == 0x0C || u == 0x0D || u == 0x20 || u == 0x85
        || u == 0xA0 || u == 0x1680 || (0x2000 <= u && u <= 0x200A) || u == 0x2028 || u == 0x2029
        || u == 0x202F || u == 0x205F || u == 0x3000
}

/// A code payload is blank when every character is whitespace; trimming
/// such a string leaves it empty.
pub open spec fn is_blank(s: Seq<char>) -> bool {
    forall|i: int| 0 <= i < s.len() ==> is_space_char(s[i])
}

fn space_char(c: char) -> (r: bool)
    ensures
        r == is_space_char(c),
{
    let u = c as u32;
    u == 0x09 || u == 0x0A || u == 0x0B || u == 0x0C || u == 0x0D || u == 0x20 || u == 0x85
        || u == 0xA0 || u == 0x1680 || (0x2000 <= u && u <= 0x200A) || u == 0x2028 || u == 0x2029
        || u == 0x202F || u == 0x205F || u == 0x3000
}

/// Decide whether a code payload is empty or whitespace-only.
pub fn code_is_blank(s: &str) -> (r: bool)
    ensures
        r == is_blank(s@),
{
    let n: usize = s.unicode_len();
    let mut i: usize = 0;
    while i < n
        invariant
            n == s@.len(),
            0 <= i <= n,
            forall|j: int| 0 <= j < i ==> is_space_char(s@[j]),
        decreases n - i,
    {
        let c = s.get_char(i);
        if !space_char(c) {
            assert(!is_space_char(s@[i as int]));
            return false;
        }
        i += 1;
    }
    true
}

/// One character of the language identifier matches the corresponding
/// lower-case letter, ignoring an ASCII upper-case variant.
pub open spec fn char_eq_nocase(c: char, lower: char) -> bool {
    c == lower || c as u32 == lower as u32 - 0x20
}

/// The single supported source dialect, compared case-insensitively over
/// ASCII letters: the identifier must read "rust".
pub open spec fn is_supported_language(s: Seq<char>) -> bool {
    s.len() == 4 && char_eq_nocase(s[0], 'r') && char_eq_nocase(s[1], 'u') && char_eq_nocase(
        s[2],
        's',
    ) && char_eq_nocase(s[3], 't')
}

fn char_matches_nocase(c: char, lower: char) -> (r: bool)
    ensures
        r == char_eq_nocase(c, lower),
{
    c == lower || c as u32 + 0x20 == lower as u32
}

/// Decide whether the declared language is the supported dialect.
pub fn language_supported(s: &str) -> (r: bool)
    ensures
        r == is_supported_language(s@),
{
    let n: usize = s.unicode_len();
    if n != 4 {
        return false;
    }
    char_matches_nocase(s.get_char(0), 'r') && char_matches_nocase(s.get_char(1), 'u')
        && char_matches_nocase(s.get_char(2), 's') && char_matches_nocase(s.get_char(3), 't')
}

/// The text that permissive UTF-8 decoding yields for a byte sequence;
/// a fixed function of the bytes alone.
pub uninterp spec fn lossy_of(bytes: Seq<u8>) -> Seq<char>;

/// Every byte is in the ASCII range.
pub open spec fn all_ascii(bytes: Seq<u8>) -> bool {
    forall|i: int| 0 <= i < bytes.len() ==> bytes[i] < 0x80
}

/// ASCII bytes read as the same characters.
pub open spec fn ascii_chars_of(bytes: Seq<u8>) -> Seq<char> {
    Seq::new(bytes.len(), |i: int| bytes[i] as char)
}

/// Relies on String::from_utf8_lossy: the result is a fixed function of
/// the bytes, valid UTF-8 is converted unchanged (so ASCII bytes map to
/// the same characters), and invalid sequences are replaced.
#[verifier::external_body]
pub(crate) fn decode_lossy(bytes: &[u8]) -> (r: String)
    ensures
        r@ == lossy_of(bytes@),
        all_ascii(bytes@) ==> r@ == ascii_chars_of(bytes@),
{
    String::from_utf8_lossy(bytes).into_owned()
}

} // verus!
