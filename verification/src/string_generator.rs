//! Random identifiers and secrets.

use rand::Rng;
use vstd::prelude::*;

verus! {

/// Length of a record identifier.
pub const ID_LENGTH: usize = 15;

/// Length of a secret where none is asked for.
pub const DEFAULT_SECRET_LENGTH: usize = 48;

/// Whether `c` is an ASCII letter or digit.
pub open spec fn is_alphanumeric(c: char) -> bool {
    ('a' <= c && c <= 'z') || ('A' <= c && c <= 'Z') || ('0' <= c && c <= '9')
}

/// Whether `s` holds `length` characters, each an ASCII letter or digit.
pub open spec fn is_secret_of(s: Seq<char>, length: nat) -> bool {
    &&& s.len() == length
    &&& forall|i: int| 0 <= i < s.len() ==> is_alphanumeric(#[trigger] s[i])
}

/// Draws `length` samples of `rand::distributions::Alphanumeric` from
/// `rand::thread_rng()`. Each sample is one of the 62 ASCII letters and
/// digits; which ones come is left to chance.
#[verifier::external_body]
fn sample_alphanumeric(length: usize) -> (drawn: String)
    ensures
        is_secret_of(drawn@, length as nat),
{
    rand::thread_rng()
        .sample_iter(&rand::distributions::Alphanumeric)
        .take(length)
        .map(char::from)
        .collect()
}

/// A fresh random string of `size` letters and digits, of 48 where no size is
/// given.
pub fn generate_string(size: Option<usize>) -> (s: String)
    ensures
        is_secret_of(
            s@,
            match size {
                Some(n) => n as nat,
                None => 48,
            },
        ),
{
    match size {
        Some(n) => sample_alphanumeric(n),
        None => sample_alphanumeric(DEFAULT_SECRET_LENGTH),
    }
}

/// A fresh record identifier: 15 random letters and digits.
pub fn generate_id() -> (id: String)
    ensures
        is_secret_of(id@, 15),
{
    generate_string(Some(ID_LENGTH))
}

/// A fresh session secret: 48 random letters and digits.
pub fn generate_auth_token() -> (token: String)
    ensures
        is_secret_of(token@, 48),
{
    generate_string(None)
}

} // verus!
