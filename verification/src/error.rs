//! The ways in which a credential or session operation ends without success.

use vstd::prelude::*;

verus! {

/// Why an operation was refused. Every variant ends the operation; nothing is
/// retried inside the library.
#[derive(Debug, Clone, Copy, PartialEq, Eq, Hash)]
pub enum AuthError {
    /// The login or the email is already taken.
    UserAlreadyExists,
    /// No account has the login.
    UserNotFound,
    /// The strength policy refused the password.
    WeakPassword,
    /// The password does not match the stored digest.
    IncorrectPassword,
    /// The session is older than its time to live.
    SessionExpired,
    /// The hasher could not produce or read a digest.
    HashingFailure,
    /// The store or the clock failed, or a reply did not fit the request.
    Unexpected,
}

} // verus!
