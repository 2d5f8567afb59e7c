//! The password hasher: salted Argon2 digests, made and checked by the
//! `argon2` crate, with salts drawn from `rand`.

use crate::error::AuthError;
use vstd::prelude::*;
use vstd::utf8::encode_utf8;
use vstd::utf8::is_ascii_chars;
use vstd::utf8::is_ascii_chars_encode_utf8;

verus! {

/// The number of characters in a salt.
pub const SALT_LEN: usize = 8;

/// The longest password, in bytes, that the hasher accepts.
pub const MAX_PASSWORD_BYTES: usize = 0xFFFF_FFFF;

/// The longest salt, in bytes, that Argon2 accepts.
pub const MAX_SALT_BYTES: usize = 0xFFFF_FFFF;

/// An ASCII letter or digit.
pub open spec fn is_alphanumeric(c: char) -> bool {
    ||| '0' <= c <= '9'
    ||| 'A' <= c <= 'Z'
    ||| 'a' <= c <= 'z'
}

/// A salt as [`random_salt`] draws it: `SALT_LEN` ASCII letters and digits.
pub open spec fn is_salt(salt: Seq<char>) -> bool {
    &&& salt.len() == SALT_LEN
    &&& forall|i: int| 0 <= i < salt.len() ==> is_alphanumeric(#[trigger] salt[i])
}

/// The encoded digest that `argon2::hash_encoded` returns for a password and
/// a salt under `argon2::Config::default()`; `None` where it returns an error.
pub uninterp spec fn argon2_encoded(pwd: Seq<u8>, salt: Seq<u8>) -> Option<Seq<char>>;

/// What `argon2::verify_encoded` returns for an encoded digest and a
/// password; `None` where it returns an error.
pub uninterp spec fn argon2_verified(encoded: Seq<char>, pwd: Seq<u8>) -> Option<bool>;

/// `digest` is what hashing `password` with `salt` gives.
pub open spec fn hashed_with(password: Seq<char>, salt: Seq<char>, digest: Seq<char>) -> bool {
    argon2_encoded(encode_utf8(password), encode_utf8(salt)) == Some(digest)
}

/// `digest` is a digest that the hasher issues for `password`: the password
/// hashed with some salt, and a digest against which the password verifies.
pub open spec fn hashed(password: Seq<char>, digest: Seq<char>) -> bool {
    &&& exists|salt: Seq<char>| is_salt(salt) && #[trigger] hashed_with(password, salt, digest)
    &&& argon2_verified(digest, encode_utf8(password)) == Some(true)
}

/// What checking `password` against `digest` gives: whether it matches, or
/// `HashingFailure` where the digest cannot be read or the algorithm fails.
pub open spec fn verification(digest: Seq<char>, password: Seq<char>) -> Result<bool, AuthError> {
    match argon2_verified(digest, encode_utf8(password)) {
        Some(matches) => Ok(matches),
        None => Err(AuthError::HashingFailure),
    }
}

/// The lengths that `argon2::hash_encoded` accepts under its default
/// configuration: a password of at most `2^32 - 1` bytes, a salt of 8 to
/// `2^32 - 1` bytes.
pub open spec fn argon2_accepts(pwd: Seq<u8>, salt: Seq<u8>) -> bool {
    &&& pwd.len() <= MAX_PASSWORD_BYTES
    &&& SALT_LEN <= salt.len() <= MAX_SALT_BYTES
}

/// `argon2::Error`, carried from the wrappers to the code that maps it.
#[verifier::external_type_specification]
#[verifier::external_body]
pub struct ExArgon2Error(argon2::Error);

/// `rand::rngs::ThreadRng`, the generator that salts are drawn from.
#[verifier::external_type_specification]
#[verifier::external_body]
pub struct ExThreadRng(rand::rngs::ThreadRng);

/// `rand::thread_rng`: the calling thread's generator. Nothing is claimed of
/// it.
pub assume_specification[ rand::thread_rng ]() -> (rng: rand::rngs::ThreadRng);

/// `String::push`: the character is appended.
pub assume_specification[ String::push ](s: &mut String, ch: char)
    ensures
        final(s)@ == old(s)@.push(ch),
;

/// `Rng::sample` with `rand::distributions::Alphanumeric`: one byte out of
/// `A-Z`, `a-z`, `0-9`, whichever the generator picks.
#[verifier::external_body]
fn sample_alphanumeric(rng: &mut rand::rngs::ThreadRng) -> (byte: u8)
    ensures
        (0x30 <= byte <= 0x39) || (0x41 <= byte <= 0x5a) || (0x61 <= byte <= 0x7a),
{
    rand::Rng::sample(rng, rand::distributions::Alphanumeric)
}

/// `argon2::hash_encoded` under `argon2::Config::default()`.
///
/// With that configuration the call checks only the two lengths: it fails on
/// a password of more than `2^32 - 1` bytes and on a salt of fewer than 8 or
/// more than `2^32 - 1` bytes, and on nothing else. The digest is a function
/// of password and salt, and `argon2::verify_encoded` accepts the password
/// against it: the digest carries the parameters and the salt that made it.
#[verifier::external_body]
fn argon2_hash_encoded(pwd: &[u8], salt: &[u8]) -> (r: Result<String, argon2::Error>)
    ensures
        (r is Ok) == argon2_accepts(pwd@, salt@),
        match r {
            Ok(encoded) => argon2_encoded(pwd@, salt@) == Some(encoded@),
            Err(_) => argon2_encoded(pwd@, salt@) is None,
        },
        r matches Ok(encoded) ==> argon2_verified(encoded@, pwd@) == Some(true),
{
    argon2::hash_encoded(pwd, salt, &argon2::Config::default())
}

/// `argon2::verify_encoded`: the result is a function of digest and password.
///
/// The call runs Argon2 with the cost parameters that the digest names; it is
/// the caller's business that those are parameters the machine can serve.
#[verifier::external_body]
fn argon2_verify_encoded(encoded: &str, pwd: &[u8]) -> (r: Result<bool, argon2::Error>)
    ensures
        match r {
            Ok(matches) => argon2_verified(encoded@, pwd@) == Some(matches),
            Err(_) => argon2_verified(encoded@, pwd@) is None,
        },
{
    argon2::verify_encoded(encoded, pwd)
}

/// Draws a fresh salt from the thread's random generator.
pub fn random_salt() -> (salt: String)
    ensures
        is_salt(salt@),
{
    let mut rng = rand::thread_rng();
    let mut salt = String::new();
    let mut drawn: usize = 0;
    while drawn < SALT_LEN
        invariant
            drawn <= SALT_LEN,
            salt@.len() == drawn,
            forall|i: int| 0 <= i < salt@.len() ==> is_alphanumeric(#[trigger] salt@[i]),
        decreases SALT_LEN - drawn,
    {
        let byte = sample_alphanumeric(&mut rng);
        salt.push(byte as char);
        drawn = drawn + 1;
    }
    salt
}

/// Hashes `pass` with the given salt. The digest embeds the parameters and
/// the salt, so that it can be verified without either.
pub fn hash_with_salt(pass: &str, salt: &str) -> (r: Result<String, AuthError>)
    ensures
        match r {
            Ok(digest) => hashed_with(pass@, salt@, digest@),
            Err(e) => e == AuthError::HashingFailure && argon2_encoded(
                encode_utf8(pass@),
                encode_utf8(salt@),
            ) is None,
        },
        (r is Ok) == argon2_accepts(encode_utf8(pass@), encode_utf8(salt@)),
        r matches Ok(digest) ==> verification(digest@, pass@) == Ok::<bool, AuthError>(true),
{
    match argon2_hash_encoded(pass.as_bytes(), salt.as_bytes()) {
        Ok(digest) => Ok(digest),
        Err(_) => Err(AuthError::HashingFailure),
    }
}

/// Hashes `pass` with a fresh random salt.
///
/// Fails, with `HashingFailure`, only on a password of more than
/// `MAX_PASSWORD_BYTES` bytes; whether the password is a good one is not the
/// hasher's business.
pub fn hash_pass(pass: &str) -> (r: Result<String, AuthError>)
    ensures
        r is Ok <==> encode_utf8(pass@).len() <= MAX_PASSWORD_BYTES,
        r matches Ok(digest) ==> hashed(pass@, digest@),
        r matches Err(e) ==> e == AuthError::HashingFailure,
{
    let salt = random_salt();
    proof {
        assert(is_ascii_chars(salt@));
        is_ascii_chars_encode_utf8(salt@);
    }
    let r = hash_with_salt(pass, salt.as_str());
    proof {
        if r is Ok {
            assert(is_salt(salt@) && hashed_with(pass@, salt@, r->Ok_0@));
        }
    }
    r
}

/// Checks `pass` against an encoded digest. A password that does not match
/// gives `Ok(false)`; an error means that the digest could not be read or the
/// algorithm failed.
pub fn verify_pass(digest: &str, pass: &str) -> (r: Result<bool, AuthError>)
    ensures
        r == verification(digest@, pass@),
{
    match argon2_verify_encoded(digest, pass.as_bytes()) {
        Ok(matches) => Ok(matches),
        Err(_) => Err(AuthError::HashingFailure),
    }
}

} // verus!
