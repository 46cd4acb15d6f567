//! The authentication layer: password hashing and verification through
//! argon2, and the cookie-identity check that gates the dashboard.

use vstd::prelude::*;

verus! {

use vstd::string::StringExecFns;
use vstd::string::is_ascii;

/// The PHC hash string argon2 produces for a secret key, a fixed salt and
/// a password.
pub uninterp spec fn argon2_hash(secret: Seq<char>, salt: Seq<char>, password: Seq<char>) -> Seq<
    char,
>;

/// Whether argon2, keyed with a secret, accepts a password against a PHC
/// hash string.
pub uninterp spec fn argon2_verifies(secret: Seq<char>, password: Seq<char>, hash: Seq<char>) -> bool;

/// Relies on argon2's `Argon2::new_with_secret` (Argon2id, version 0x13,
/// default parameters) and `hash_password_with_salt`: with a fixed salt the
/// PHC hash string is a function of secret, salt and password alone, and
/// argon2's verify accepts it for the same secret and password. `None` only
/// when the hasher cannot allocate its working memory.
#[verifier::external_body]
pub fn hash_password(secret_key: &str, salt: &str, password: &str) -> (r: Option<String>)
    requires
        is_ascii(salt),
        8 <= salt@.len() <= 48,
        secret_key@.len() <= 0x3FFFFFFF,
        password@.len() <= 0x3FFFFFFF,
    ensures
        r matches Some(h) ==> h@ == argon2_hash(secret_key@, salt@, password@) && argon2_verifies(
            secret_key@,
            password@,
            h@,
        ),
{
    let secret = secret_key.as_bytes();
    let (alg, ver) = (argon2::Algorithm::Argon2id, argon2::Version::V0x13);
    let hasher = match argon2::Argon2::new_with_secret(secret, alg, ver, Default::default()) {
        Ok(h) => h,
        Err(_) => return None,
    };
    argon2::PasswordHasher::hash_password_with_salt(&hasher, password.as_bytes(), salt.as_bytes())
        .map(|hash| hash.to_string())
        .ok()
}

/// Relies on argon2's `verify_password` on the PHC string form: the outcome
/// is a function of secret, password and hash string alone; a hash that
/// does not parse verifies as false.
#[verifier::external_body]
pub fn verify_password(secret_key: &str, password: &str, hashed_password: &str) -> (r: bool)
    ensures
        r == argon2_verifies(secret_key@, password@, hashed_password@),
{
    let secret = secret_key.as_bytes();
    let (alg, ver) = (argon2::Algorithm::Argon2id, argon2::Version::V0x13);
    let hasher = match argon2::Argon2::new_with_secret(secret, alg, ver, Default::default()) {
        Ok(h) => h,
        Err(_) => return false,
    };
    argon2::PasswordVerifier::<str>::verify_password(&hasher, password.as_bytes(), hashed_password)
        .is_ok()
}

/// Decides whether a request carries a validated identity: no cookie
/// identity reads "not validated"; an identity whose id could be read is
/// accepted as it stands, and a failure to read it is passed through.
pub fn validate_cookie_identity(identity: Option<Result<String, String>>) -> (r: Result<
    String,
    String,
>)
    ensures
        match identity {
            None => r matches Err(e) && e@ == "not validated"@,
            Some(inner) => r == inner,
        },
{
    match identity {
        None => Err(String::from_str("not validated")),
        Some(Ok(id)) => Ok(id),
        Some(Err(e)) => Err(e),
    }
}

} // verus!
