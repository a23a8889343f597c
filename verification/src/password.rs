//! Password digests: salted, adaptive, one-way.

use vstd::prelude::*;
use crate::text::digit_char;

verus! {

/// The cost factor of every digest that this library makes.
pub const HASH_COST: u32 = 12;

/// A password digest is this many characters long.
pub const DIGEST_LEN: usize = 60;

/// The error of the hashing library. Nothing of it is read here.
#[verifier::external_type_specification]
#[verifier::external_body]
pub struct ExBcryptError(bcrypt::BcryptError);

/// Why a password could not be hashed or checked.
#[derive(Clone, Copy, Debug, PartialEq, Eq, Structural)]
pub enum PasswordError {
    /// The hashing library could not make a digest.
    HashingFailed,
    /// The text is no digest that the hashing library can read.
    MalformedDigest,
}

/// Whether `password` is the password that `digest` was made from; `None`
/// where `digest` cannot be read as a digest.
pub uninterp spec fn bcrypt_verify(password: Seq<char>, digest: Seq<char>) -> Option<bool>;

/// Trusted: `bcrypt::hash`. The salt is random, so the digest itself is not
/// named. Of every digest that comes back the contract says what the
/// crate's source shows: it is written as `$`, the version in two
/// characters, `$`, the cost in two digits, `$`, 22 characters of salt and
/// 31 of hash, 60 in all, and `bcrypt::verify` of the same password against
/// it recomputes the hash from that salt and cost and so finds it equal.
#[verifier::external_body]
fn bcrypt_hash(password: &str, cost: u32) -> (r: Result<String, bcrypt::BcryptError>)
    ensures
        r matches Ok(digest) ==> {
            &&& digest@.len() == DIGEST_LEN
            &&& digest@[0] == '$'
            &&& digest@[3] == '$'
            &&& digest@[4] == digit_char((cost / 10) as int)
            &&& digest@[5] == digit_char((cost % 10) as int)
            &&& digest@[6] == '$'
            &&& bcrypt_verify(password@, digest@) == Some(true)
        },
{
    bcrypt::hash(password, cost)
}

/// Trusted: `bcrypt::verify`, a function of the password and the digest.
#[verifier::external_body]
fn bcrypt_check(password: &str, digest: &str) -> (r: Result<bool, bcrypt::BcryptError>)
    ensures
        match r {
            Ok(same) => bcrypt_verify(password@, digest@) == Some(same),
            Err(_) => bcrypt_verify(password@, digest@) is None,
        },
{
    bcrypt::verify(password, digest)
}

/// What `verify_password` returns for a password and a digest.
pub open spec fn verify_spec(password: Seq<char>, digest: Seq<char>) -> Result<bool, PasswordError> {
    match bcrypt_verify(password, digest) {
        Some(same) => Ok(same),
        None => Err(PasswordError::MalformedDigest),
    }
}

/// `digest` has the shape of a digest made at the fixed cost: 60
/// characters, of which the fifth and sixth write the cost.
pub open spec fn has_fixed_cost(digest: Seq<char>) -> bool {
    &&& digest.len() == DIGEST_LEN
    &&& digest[0] == '$'
    &&& digest[3] == '$'
    &&& digest[4] == digit_char(HASH_COST as int / 10)
    &&& digest[5] == digit_char(HASH_COST as int % 10)
    &&& digest[6] == '$'
}

/// `digest` is fit to be stored for `password`: it is a digest made at
/// the fixed cost, it is accepted for the password, and it is not the
/// password.
pub open spec fn is_digest_of(digest: Seq<char>, password: Seq<char>) -> bool {
    &&& has_fixed_cost(digest)
    &&& digest[4] == '1'
    &&& digest[5] == '2'
    &&& verify_spec(password, digest) == Ok::<bool, PasswordError>(true)
    &&& (password.len() != DIGEST_LEN || password[0] != '$' ==> digest != password)
}

/// What a call of the hashing library is turned into: its digest, or the
/// one error that stands for every failure of it.
pub fn digest_outcome(made: Result<String, bcrypt::BcryptError>) -> (r: Result<String, PasswordError>)
    ensures
        match made {
            Ok(digest) => r == Ok::<String, PasswordError>(digest),
            Err(_) => r == Err::<String, PasswordError>(PasswordError::HashingFailed),
        },
{
    match made {
        Ok(digest) => Ok(digest),
        Err(_) => Err(PasswordError::HashingFailed),
    }
}

/// What a call of the checking library is turned into.
pub fn check_outcome(checked: Result<bool, bcrypt::BcryptError>) -> (r: Result<bool, PasswordError>)
    ensures
        match checked {
            Ok(same) => r == Ok::<bool, PasswordError>(same),
            Err(_) => r == Err::<bool, PasswordError>(PasswordError::MalformedDigest),
        },
{
    match checked {
        Ok(same) => Ok(same),
        Err(_) => Err(PasswordError::MalformedDigest),
    }
}

/// Makes a fresh salted digest of `password` at the fixed cost. Whether a
/// digest can be made rests with the hashing library and its source of
/// randomness; every digest that is returned carries the fixed cost, is
/// accepted for `password` by `verify_password`, and differs from a
/// password that has not itself the shape of a digest.
pub fn hash_password(password: &str) -> (r: Result<String, PasswordError>)
    ensures
        match r {
            Ok(digest) => is_digest_of(digest@, password@),
            Err(e) => e == PasswordError::HashingFailed,
        },
{
    digest_outcome(bcrypt_hash(password, HASH_COST))
}

/// Whether `password` is the one that `digest` was made from.
pub fn verify_password(password: &str, digest: &str) -> (r: Result<bool, PasswordError>)
    ensures
        r == verify_spec(password@, digest@),
{
    check_outcome(bcrypt_check(password, digest))
}

} // verus!
