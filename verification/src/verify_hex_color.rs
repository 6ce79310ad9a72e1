//! Validation of embed colours.

use vstd::prelude::*;

verus! {

/// The pattern an embed colour has to match.
pub const HEX_COLOR_PATTERN: &'static str = "^#[0-9a-f]{3,6}$";

/// Whether `c` is a lower-case hexadecimal digit.
pub open spec fn is_hex_digit(c: char) -> bool {
    ('0' <= c && c <= '9') || ('a' <= c && c <= 'f')
}

/// Whether `s` is a `#` followed by three to six lower-case hexadecimal
/// digits, and nothing else.
pub open spec fn is_hex_color(s: Seq<char>) -> bool {
    &&& 4 <= s.len() <= 7
    &&& s[0] == '#'
    &&& forall|i: int| 1 <= i < s.len() ==> is_hex_digit(#[trigger] s[i])
}

/// Compiles `pattern` with `regex::Regex::new` and asks `Regex::is_match` of
/// `text`. The contract speaks of one pattern only, the one of embed colours,
/// and reads it as the crate's syntax documents it: `^` and `$` are the two
/// ends of the text, `#` stands for itself, `[0-9a-f]` is one character of
/// those ranges, `{3,6}` repeats it three to six times. A pattern that does
/// not compile matches nothing.
#[verifier::external_body]
fn regex_is_match(pattern: &str, text: &str) -> (matched: bool)
    requires
        pattern@ == HEX_COLOR_PATTERN@,
    ensures
        matched == is_hex_color(text@),
{
    match regex::Regex::new(pattern) {
        Ok(compiled) => compiled.is_match(text),
        Err(_) => false,
    }
}

/// Whether `color` is a hexadecimal colour: `#` and three to six lower-case
/// hexadecimal digits.
pub fn verify_hex_color(color: &str) -> (valid: bool)
    ensures
        valid == is_hex_color(color@),
{
    regex_is_match(HEX_COLOR_PATTERN, color)
}

} // verus!
