//! How a password supplied on update is stored: short ones are hashed, longer
//! ones are taken as already hashed.

use vstd::prelude::*;

verus! {

#[verifier::external_type_specification]
#[verifier::external_body]
pub struct ExBcryptError(bcrypt::BcryptError);

/// Passwords shorter than this many characters are hashed before they are
/// stored.
pub const HASH_THRESHOLD: usize = 20;

/// The password is shorter than the threshold, counted in characters.
pub open spec fn needs_hash(password: Seq<char>) -> bool {
    password.len() < HASH_THRESHOLD
}

/// The bcrypt hash string (version 2b, cost `bcrypt::DEFAULT_COST`) of a
/// password with a given 16-byte salt.
pub uninterp spec fn bcrypt_of(password: Seq<char>, salt: Seq<u8>) -> Seq<char>;

/// `h` is the bcrypt hash of `password` under some salt.
pub open spec fn is_bcrypt_of(h: Seq<char>, password: Seq<char>) -> bool {
    exists|salt: Seq<u8>| h == #[trigger] bcrypt_of(password, salt)
}

/// Relies on `bcrypt::hash_with_result` at `bcrypt::DEFAULT_COST`: it draws a
/// random salt and hashes the password with it, the result depending on the
/// password and the salt alone. `HashParts::format_for_version` with
/// `Version::TwoB` writes the hash string, exactly 60 ASCII characters, and
/// `HashParts::get_salt_raw` gives the salt that was drawn.
#[verifier::external_body]
fn bcrypt_hash(password: &str) -> (r: Result<(String, Vec<u8>), bcrypt::BcryptError>)
    ensures
        r matches Ok((h, salt)) ==> h@ == bcrypt_of(password@, salt@) && h@.len() == 60,
{
    match bcrypt::hash_with_result(password, bcrypt::DEFAULT_COST) {
        Ok(parts) => Ok(
            (parts.format_for_version(bcrypt::Version::TwoB), parts.get_salt_raw().to_vec()),
        ),
        Err(e) => Err(e),
    }
}

/// The value to store for a password given on update: its bcrypt hash when it
/// is shorter than the threshold, else the password itself. `None` when the
/// hash could not be made.
pub fn stored_password(password: &str) -> (r: Option<String>)
    ensures
        !needs_hash(password@) ==> (r matches Some(s) && s@ == password@),
        needs_hash(password@) ==> (r matches Some(s) ==> is_bcrypt_of(s@, password@)
            && s@.len() == 60 && s@ != password@),
{
    if password.unicode_len() < HASH_THRESHOLD {
        match bcrypt_hash(password) {
            Ok((h, salt)) => {
                assert(h@ == bcrypt_of(password@, salt@));
                Some(h)
            },
            Err(_) => None,
        }
    } else {
        Some(String::from_str(password))
    }
}

} // verus!
