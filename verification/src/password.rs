use aes_gcm_siv::aead::OsRng;
use argon2::password_hash::SaltString;
use argon2::{Argon2, PasswordHasher};
use vstd::prelude::*;
use vstd::string::StringSliceAdditionalSpecFns;

verus! {

/// The error type of the `password-hash` crate that argon2 reports.
#[verifier::external_type_specification]
#[verifier::external_body]
pub struct ExPasswordHashError(argon2::password_hash::Error);

/// The PHC string that Argon2 with its default parameters produces for
/// `password` under the B64 `salt`, or `None` where it refuses them.
pub uninterp spec fn argon2_phc(password: Seq<char>, salt: Seq<char>) -> Option<Seq<char>>;

/// The longest password, in UTF-8 bytes, that Argon2 accepts.
pub const MAX_PASSWORD_BYTES: u64 = 4294967295;

/// A digit of standard Base64 (`A-Z`, `a-z`, `0-9`, `+`, `/`).
pub open spec fn is_b64_digit(c: char) -> bool {
    ('A' <= c && c <= 'Z') || ('a' <= c && c <= 'z') || ('0' <= c && c <= '9') || c == '+' || c
        == '/'
}

/// Unpadded standard Base64 text of 16 bytes: 21 digits that carry six bits
/// each and a last digit that carries the remaining two bits, its four low
/// bits zero.
pub open spec fn is_salt_of_16_bytes(s: Seq<char>) -> bool {
    &&& s.len() == 22
    &&& forall|i: int| 0 <= i < 21 ==> is_b64_digit(#[trigger] s[i])
    &&& (s[21] == 'A' || s[21] == 'Q' || s[21] == 'g' || s[21] == 'w')
}

/// `SaltString::generate(&mut OsRng)` (password-hash 0.5): 16 random bytes
/// encoded as unpadded standard Base64 (`Encoding::B64`). Only that shape is
/// claimed of the value.
#[verifier::external_body]
fn random_salt() -> (salt: String)
    ensures
        is_salt_of_16_bytes(salt@),
{
    SaltString::generate(&mut OsRng).as_str().to_string()
}

/// `Argon2::default().hash_password` (argon2 0.5) of the UTF-8 bytes of
/// `password` under the salt given as B64 text (read with
/// `SaltString::from_b64`), rendered as a PHC string. Its source refuses a
/// salt of the wrong length or with characters outside the PHC salt
/// alphabet, a salt that decodes to fewer than 8 bytes, and a password over
/// `MAX_PASSWORD_BYTES`; with the default parameters nothing else fails. So
/// the B64 text of 16 bytes and a password within the limit hash. Which
/// error comes back is not stated.
#[verifier::external_body]
fn argon2_hash(password: &str, salt: &str) -> (res: Result<String, argon2::password_hash::Error>)
    ensures
        match res {
            Ok(hash) => argon2_phc(password@, salt@) == Some(hash@),
            Err(_) => argon2_phc(password@, salt@) is None,
        },
        is_salt_of_16_bytes(salt@) && password.spec_bytes().len() <= MAX_PASSWORD_BYTES ==> res is Ok,
{
    let salt = SaltString::from_b64(salt)?;
    Argon2::default().hash_password(password.as_bytes(), &salt).map(|hash| hash.to_string())
}

/// Hashing a password failed.
#[derive(Clone, Copy, Debug, PartialEq, Eq, Structural)]
pub struct HashError;

/// The Argon2 PHC string of `password` under `salt`.
pub fn hash_password_with_salt(password: &str, salt: &str) -> (res: Result<String, HashError>)
    ensures
        match res {
            Ok(hash) => argon2_phc(password@, salt@) == Some(hash@),
            Err(_) => argon2_phc(password@, salt@) is None,
        },
        is_salt_of_16_bytes(salt@) && password.spec_bytes().len() <= MAX_PASSWORD_BYTES ==> res is Ok,
{
    match argon2_hash(password, salt) {
        Ok(hash) => Ok(hash),
        Err(_) => Err(HashError),
    }
}

/// The Argon2 PHC string of `password` under a fresh random salt of 16
/// bytes. It fails only for a password over `MAX_PASSWORD_BYTES` bytes.
pub fn hash_password(password: &str) -> (res: Result<String, HashError>)
    ensures
        res matches Ok(hash) ==> exists|salt: Seq<char>|
            is_salt_of_16_bytes(salt) && argon2_phc(password@, salt) == Some(hash@),
        password.spec_bytes().len() <= MAX_PASSWORD_BYTES ==> res is Ok,
{
    let salt = random_salt();
    hash_password_with_salt(password, salt.as_str())
}

} // verus!
