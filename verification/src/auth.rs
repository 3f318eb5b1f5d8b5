//! Passwords and authentication tokens: passwords are kept as Argon2id hashes
//! in PHC form, and a user proves its identity with a token that names it and
//! expires after a configured number of hours.
use crate::error::{failure, outcome, Error, ErrorCode, Failure};
use crate::types::common::Auth;
use crate::serde_duration::decimal;
use argon2::password_hash::phc::Salt;
use vstd::prelude::*;

verus! {

/// Whether `password` matches the PHC string `phc`, as Argon2's
/// `verify_password` decides it: the password is hashed again with the
/// algorithm, version, parameters and salt that the PHC string records, and the
/// output must equal the one recorded.
pub uninterp spec fn argon2_verifies(password: Seq<char>, phc: Seq<char>) -> bool;

#[verifier::external_type_specification]
#[verifier::external_body]
pub struct ExSalt(argon2::password_hash::phc::Salt);

/// `phc::Salt::generate`: a fresh salt of random bytes. Nothing is stated of
/// its bytes.
#[verifier::external_body]
fn generate_salt() -> Salt {
    Salt::generate()
}

/// The start of the PHC string of an Argon2id (version 19) hash with memory
/// cost `m` KiB, `t` passes and parallelism `p`: `$argon2id$v=19$m=..,t=..,p=..$`.
pub open spec fn phc_prefix(m: u32, t: u32, p: u32) -> Seq<char> {
    "$argon2id$v=19$m="@ + decimal(m as nat) + ",t="@ + decimal(t as nat) + ",p="@ + decimal(
        p as nat,
    ) + "$"@
}

/// The length of `n` bytes in unpadded B64.
pub open spec fn b64_len(n: nat) -> nat {
    (4 * n + 2) / 3
}

/// Whether `h` is the PHC string of an Argon2id hash with these parameters:
/// the prefix that records them, a B64 salt, `$`, and a B64 output of
/// `output_len` bytes.
pub open spec fn is_phc_hash(h: Seq<char>, m: u32, t: u32, p: u32, output_len: nat) -> bool {
    exists|salt: Seq<char>, out: Seq<char>|
        h == phc_prefix(m, t, p) + salt + "$"@ + out && out.len() == b64_len(output_len)
            && !salt.contains('$') && !out.contains('$')
}

/// Whether Argon2 accepts these parameters and the output fits its buffer:
/// at least 8 KiB of memory and 8 KiB per lane, 1 to 2^24 - 1 lanes, at least
/// one pass, and an output of 10 to 64 bytes.
pub open spec fn argon2_params_ok(m_cost: u32, t_cost: u32, p_cost: u32, output_len: usize) -> bool {
    &&& 8 <= m_cost
    &&& 1 <= p_cost <= 0xFF_FFFF
    &&& 8 * p_cost <= m_cost
    &&& 1 <= t_cost
    &&& 10 <= output_len <= 64
}

/// `Argon2::hash_password_with_salt` for Argon2id, version 0x13, with the given
/// memory cost in KiB, number of passes, parallelism and output length,
/// rendered as a PHC string; an error of Argon2 is rendered as its message.
/// Claimed, as the source shows:
/// - It succeeds for parameters that `Params::new` and the output buffer
///   accept and a password of at most 2^32 - 1 bytes (every salt holds 8 to
///   48 bytes, which Argon2 accepts). A password of at most 2^30 - 1
///   characters has at most 2^32 - 4 bytes in UTF-8. Argon2 also reports a
///   failure to allocate its work area; like every allocation of this
///   library, that is not modelled.
/// - The PHC string records the algorithm, version 19, the three costs in
///   decimal, the salt and the output, each part after a `$`, the salt and
///   output in unpadded B64 (which has no `$`).
/// - A hash that it returns verifies the same password, since verification
///   recomputes the hash from what the PHC string records.
#[verifier::external_body]
fn argon2id_hash(
    m_cost: u32,
    t_cost: u32,
    p_cost: u32,
    output_len: usize,
    password: &str,
    salt: &Salt,
) -> (r: Result<String, String>)
    ensures
        argon2_params_ok(m_cost, t_cost, p_cost, output_len) && password@.len() <= 0x3fff_ffff
            ==> r is Ok,
        r matches Ok(h) ==> argon2_verifies(password@, h@),
        r matches Ok(h) ==> is_phc_hash(h@, m_cost, t_cost, p_cost, output_len as nat),
{
    let params = argon2::Params::new(m_cost, t_cost, p_cost, Some(output_len)).map_err(
        |e| e.to_string(),
    )?;
    let hasher = argon2::Argon2::new(argon2::Algorithm::Argon2id, argon2::Version::V0x13, params);
    argon2::PasswordHasher::hash_password_with_salt(&hasher, password.as_bytes(), salt).map(
        |h| h.to_string(),
    ).map_err(|e| e.to_string())
}

/// `Argon2::verify_password`: whether `password` matches the PHC string `hash`.
/// The result is named, since it is a hash computation. Verification reads the
/// algorithm, version and parameters from the PHC string, so it needs no
/// configured instance.
#[verifier::external_body]
fn verify_hash(password: &str, hash: &str) -> (b: bool)
    ensures
        b == argon2_verifies(password@, hash@),
{
    argon2::PasswordVerifier::verify_password(
        &argon2::Argon2::default(),
        password.as_bytes(),
        hash,
    ).is_ok()
}

/// The memory cost, in KiB, of hashing a password.
pub const ARGON2_MEMORY_KIB: u32 = 19456u32;

/// The number of passes over the memory when hashing a password.
pub const ARGON2_ITERATIONS: u32 = 2u32;

/// The degree of parallelism when hashing a password.
pub const ARGON2_PARALLELISM: u32 = 1u32;

/// The length in bytes of a password hash.
pub const ARGON2_HASH_LEN: usize = 32usize;

/// Whether `password` is the password of a user whose stored hash is
/// `stored`, if there is such a user.
pub open spec fn spec_check_credentials(stored: Option<Seq<char>>, password: Seq<char>) -> Result<
    (),
    Failure,
> {
    match stored {
        Some(h) => if argon2_verifies(password, h) {
            Ok(())
        } else {
            Err((ErrorCode::Unauthorized, "Invalid credentials"@))
        },
        None => Err((ErrorCode::Unauthorized, "Invalid credentials"@)),
    }
}

/// Hashes a password with Argon2id and a fresh random salt, for storage.
/// A password hashed this way is accepted by `check_credentials`.
pub fn hash(pass: String) -> (r: Result<String, Error>)
    ensures
        pass@.len() <= 0x3fff_ffff ==> r is Ok,
        r matches Ok(h) ==> spec_check_credentials(Some(h@), pass@) is Ok,
        r matches Ok(h) ==> is_phc_hash(
            h@,
            ARGON2_MEMORY_KIB,
            ARGON2_ITERATIONS,
            ARGON2_PARALLELISM,
            ARGON2_HASH_LEN as nat,
        ),
        r matches Err(e) ==> e.code == ErrorCode::Internal,
{
    let salt = generate_salt();
    match argon2id_hash(
        ARGON2_MEMORY_KIB,
        ARGON2_ITERATIONS,
        ARGON2_PARALLELISM,
        ARGON2_HASH_LEN,
        pass.as_str(),
        &salt,
    ) {
        Ok(h) => Ok(h),
        Err(message) => {
            let mut m = String::from_str("Hashing password failed: ");
            m.append(message.as_str());
            Err(Error { code: ErrorCode::Internal, message: m })
        },
    }
}

/// Checks `password` against the stored hash of a user, if the user exists.
/// Both a missing user and a wrong password give the same error.
pub fn check_credentials(stored: Option<&str>, password: &str) -> (r: Result<(), Error>)
    ensures
        outcome(r) == spec_check_credentials(
            match stored {
                Some(h) => Some(h@),
                None => None,
            },
            password@,
        ),
{
    match stored {
        Some(h) => if verify_hash(password, h) {
            Ok(())
        } else {
            Err(Error::unauthorized("Invalid credentials"))
        },
        None => Err(Error::unauthorized("Invalid credentials")),
    }
}

/// The claims of a token issued to `user_id` at `now_secs` that stays valid for
/// `expiration_hours` hours.
pub fn token_claims(user_id: String, now_secs: u64, expiration_hours: u64) -> (a: Auth)
    requires
        now_secs + expiration_hours * 3600 <= u64::MAX,
    ensures
        a.user_id == user_id,
        a.exp == now_secs + expiration_hours * 3600,
{
    Auth { user_id, exp: now_secs + expiration_hours * 3600 }
}

/// What reading the token of a request gave.
#[derive(Debug)]
pub enum TokenCheck {
    /// The request carries no token.
    Missing,
    /// The token's signature is valid but its time has passed.
    Expired,
    /// The token cannot be read or its signature is wrong.
    Invalid,
    /// The token is valid and names this user.
    Valid(String),
}

/// The user that a request authenticates as, or why it does not.
pub open spec fn spec_verify(check: TokenCheck) -> Result<Seq<char>, Failure> {
    match check {
        TokenCheck::Missing => Err((ErrorCode::Unauthorized, "Missing token"@)),
        TokenCheck::Expired => Err((ErrorCode::Unauthorized, "Token expired"@)),
        TokenCheck::Invalid => Err((ErrorCode::Unauthorized, "Invalid token"@)),
        TokenCheck::Valid(u) => Ok(u@),
    }
}

/// The id of the user that a request authenticates as, from what reading its
/// token gave.
pub fn verify(check: TokenCheck) -> (r: Result<String, Error>)
    ensures
        match r {
            Ok(u) => spec_verify(check) == Ok::<Seq<char>, Failure>(u@),
            Err(e) => spec_verify(check) == Err::<Seq<char>, Failure>(failure(e)),
        },
{
    match check {
        TokenCheck::Missing => Err(Error::unauthorized("Missing token")),
        TokenCheck::Expired => Err(Error::unauthorized("Token expired")),
        TokenCheck::Invalid => Err(Error::unauthorized("Invalid token")),
        TokenCheck::Valid(u) => Ok(u),
    }
}

/// Checks that the user a valid token names still exists.
pub fn verified_user<T>(user: Option<T>) -> (r: Result<T, Error>)
    ensures
        user is Some <==> r is Ok,
        r matches Ok(u) ==> user == Some(u),
        r matches Err(e) ==> failure(e) == (ErrorCode::NotFound, "User not found"@),
{
    match user {
        Some(u) => Ok(u),
        None => Err(Error::not_found("User not found")),
    }
}

/// Whether a login falls back to the user id and password of the request:
/// only where the token was refused as unauthorized and both are given.
pub fn use_password_login(token_error: &Error, has_user_id: bool, has_password: bool) -> (b: bool)
    ensures
        b == (token_error.code == ErrorCode::Unauthorized && has_user_id && has_password),
{
    token_error.code == ErrorCode::Unauthorized && has_user_id && has_password
}

} // verus!
