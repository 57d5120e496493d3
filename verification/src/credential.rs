//! Password hashes and session-token identifiers: the calls into `argon2`,
//! `uuid` and `rand`, and what the service relies on of them.
use argon2::password_hash::rand_core::OsRng;
use argon2::password_hash::{PasswordHash, PasswordHasher, PasswordVerifier, SaltString};
use argon2::Argon2;
use rand::Rng;
use vstd::prelude::*;

use crate::text::{is_ascii_digit, is_ascii_letter};

verus! {

/// Whether `stored` reads as a PHC password-hash string
/// (`argon2::password_hash::PasswordHash::new` succeeds on it).
pub uninterp spec fn phc_parses(stored: Seq<char>) -> bool;

/// Whether `Argon2::default().verify_password` accepts `password` against the
/// PHC string `stored` (read by `PasswordHash::new`).
pub uninterp spec fn argon2_verifies(password: Seq<char>, stored: Seq<char>) -> bool;

/// The `uuid::Uuid` that `Uuid::parse_str` reads from `text`, as its 128-bit
/// value, or `None` where the text is no UUID.
pub uninterp spec fn uuid_parse(text: Seq<char>) -> Option<u128>;

/// The lower-case hexadecimal digit of `n`, for `0 <= n < 16`.
pub open spec fn hex_digit(n: int) -> char {
    if n < 10 {
        (n + 48) as char
    } else {
        (n + 87) as char
    }
}

/// The `k`-th of the 32 hexadecimal digits of `id`, counting from the most
/// significant.
pub open spec fn uuid_nibble(id: u128, k: int) -> int {
    (id as int / vstd::arithmetic::power2::pow2((4 * (31 - k)) as nat) as int) % 16
}

/// Which of the 32 digits stands at position `i` of the hyphenated text.
pub open spec fn hyphenated_digit_index(i: int) -> int {
    if i < 8 {
        i
    } else if i < 13 {
        i - 1
    } else if i < 18 {
        i - 2
    } else if i < 23 {
        i - 3
    } else {
        i - 4
    }
}

/// The text that `uuid::Uuid`'s `Display` writes for the UUID with 128-bit
/// value `id` (its bytes in big-endian order): 32 lower-case hexadecimal
/// digits, most significant first, in groups of 8, 4, 4, 4 and 12 joined by
/// `-`.
pub open spec fn uuid_text(id: u128) -> Seq<char> {
    Seq::new(
        36,
        |i: int|
            if i == 8 || i == 13 || i == 18 || i == 23 {
                '-'
            } else {
                hex_digit(uuid_nibble(id, hyphenated_digit_index(i)))
            },
    )
}

/// What checking a password against a stored hash found.
#[derive(Clone, Copy, Debug, PartialEq, Eq)]
pub enum PasswordCheck {
    /// The stored text is no PHC hash string.
    Malformed,
    /// The password does not match the hash.
    Mismatch,
    /// The password matches the hash.
    Matches,
}

/// Checks `password` against the stored PHC string with Argon2:
/// `PasswordHash::new(stored)` then `Argon2::default().verify_password`.
/// The contract claims that the outcome is what `phc_parses` and
/// `argon2_verifies` name for the two texts.
#[verifier::external_body]
pub fn check_password(password: &str, stored: &str) -> (r: PasswordCheck)
    ensures
        (r == PasswordCheck::Malformed) == !phc_parses(stored@),
        (r == PasswordCheck::Matches) == (phc_parses(stored@) && argon2_verifies(
            password@,
            stored@,
        )),
{
    match PasswordHash::new(stored) {
        Err(_) => PasswordCheck::Malformed,
        Ok(hash) => match Argon2::default().verify_password(password.as_bytes(), &hash) {
            Ok(()) => PasswordCheck::Matches,
            Err(_) => PasswordCheck::Mismatch,
        },
    }
}

/// Hashes `password` with `Argon2::default()` and a fresh salt from
/// `SaltString::generate(&mut OsRng)`, and writes the PHC string. The salt is
/// random, so nothing names the result; the contract claims only that the
/// string reads back as a PHC hash that the same password verifies against,
/// which is what `verify_password` recomputes from the salt and parameters
/// the string carries. `None` stands for an error of `hash_password`: with
/// the default parameters and a generated salt its only error is a password
/// longer than `argon2::MAX_PWD_LEN` (`0xFFFFFFFF`) bytes, and a character
/// takes at most four bytes. The string holds the 22-character B64 salt of
/// the 16 bytes `SaltString::generate` draws and the 43-character B64 hash of
/// the 32-byte default output, so it is longer than 64 characters.
#[verifier::external_body]
pub fn hash_password(password: &str) -> (r: Option<String>)
    ensures
        password@.len() * 4 <= 0xFFFF_FFFF ==> r is Some,
        r matches Some(h) ==> phc_parses(h@) && argon2_verifies(password@, h@) && h@.len() > 64,
{
    let salt = SaltString::generate(&mut OsRng);
    match Argon2::default().hash_password(password.as_bytes(), &salt) {
        Ok(hash) => Some(hash.to_string()),
        Err(_) => None,
    }
}

/// Reads a session token's text with `uuid::Uuid::parse_str`.
#[verifier::external_body]
pub fn parse_token(text: &str) -> (r: Option<u128>)
    ensures
        r == uuid_parse(text@),
{
    match uuid::Uuid::parse_str(text) {
        Ok(id) => Some(id.as_u128()),
        Err(_) => None,
    }
}

/// Writes a session token as text with `uuid::Uuid::from_u128` and
/// `Display` (`fmt::LowerHex` of the hyphenated form). The contract also
/// claims that `Uuid::parse_str` reads that text back to the
/// same UUID: its documentation says it reads every format the crate writes.
#[verifier::external_body]
pub fn token_text(id: u128) -> (r: String)
    ensures
        r@ == uuid_text(id),
        uuid_parse(r@) == Some(id),
{
    uuid::Uuid::from_u128(id).to_string()
}

/// A fresh session token from `uuid::Uuid::now_v7` (clock and randomness);
/// nothing is stated of its value.
#[verifier::external_body]
pub fn fresh_token() -> (r: u128) {
    uuid::Uuid::now_v7().as_u128()
}

/// `len` characters drawn from `rand::distr::Alphanumeric` with
/// `rand::rng()`. The draw is random; the contract claims what the
/// distribution's documentation says of every draw: each character is an
/// ASCII letter or digit.
#[verifier::external_body]
pub fn random_alphanumeric(len: usize) -> (r: String)
    ensures
        r@.len() == len,
        forall|i: int| 0 <= i < r@.len() ==> is_ascii_letter(#[trigger] r@[i]) || is_ascii_digit(r@[i]),
{
    rand::rng().sample_iter(&rand::distr::Alphanumeric).take(len).map(char::from).collect()
}

} // verus!
