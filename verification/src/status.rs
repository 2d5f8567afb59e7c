//! How the outcome of a workflow is reported over HTTP: the status code that
//! goes with each result.
//!
//! A failure of the hasher is an internal matter; it is reported as an
//! unexpected failure is.

use crate::error::AuthError;
use vstd::prelude::*;

verus! {

pub const OK: u16 = 200;

pub const BAD_REQUEST: u16 = 400;

pub const UNAUTHORIZED: u16 = 401;

pub const FORBIDDEN: u16 = 403;

pub const NOT_FOUND: u16 = 404;

pub const INTERNAL_SERVER_ERROR: u16 = 500;

pub const NOT_IMPLEMENTED: u16 = 501;

/// The error as it is shown at the edge: `HashingFailure` becomes
/// `Unexpected`, every other error stays what it is.
pub open spec fn escalated(e: AuthError) -> AuthError {
    match e {
        AuthError::HashingFailure => AuthError::Unexpected,
        _ => e,
    }
}

/// The status of a registration.
pub open spec fn register_status_of(failure: Option<AuthError>) -> u16 {
    match failure {
        None => OK,
        Some(e) => match escalated(e) {
            AuthError::UserAlreadyExists => BAD_REQUEST,
            AuthError::WeakPassword => BAD_REQUEST,
            AuthError::Unexpected => INTERNAL_SERVER_ERROR,
            _ => NOT_IMPLEMENTED,
        },
    }
}

/// The status of a password change.
pub open spec fn change_pass_status_of(failure: Option<AuthError>) -> u16 {
    match failure {
        None => OK,
        Some(e) => match escalated(e) {
            AuthError::UserNotFound => NOT_FOUND,
            AuthError::IncorrectPassword => FORBIDDEN,
            AuthError::WeakPassword => BAD_REQUEST,
            AuthError::Unexpected => INTERNAL_SERVER_ERROR,
            _ => NOT_IMPLEMENTED,
        },
    }
}

/// The status of a login. An unknown login and a wrong password are told
/// apart inside, not to the client.
pub open spec fn login_status_of(failure: Option<AuthError>) -> u16 {
    match failure {
        None => OK,
        Some(e) => match escalated(e) {
            AuthError::UserNotFound => UNAUTHORIZED,
            AuthError::IncorrectPassword => UNAUTHORIZED,
            _ => NOT_IMPLEMENTED,
        },
    }
}

/// What is left of a result when only its failure matters.
pub open spec fn failure_of<T>(outcome: Result<T, AuthError>) -> Option<AuthError> {
    match outcome {
        Ok(_) => None,
        Err(e) => Some(e),
    }
}

/// Shows an error as the edge shows it.
pub fn escalate(e: AuthError) -> (shown: AuthError)
    ensures
        shown == escalated(e),
{
    match e {
        AuthError::HashingFailure => AuthError::Unexpected,
        _ => e,
    }
}

/// The status code that reports the outcome of a registration.
pub fn register_status<T>(outcome: &Result<T, AuthError>) -> (status: u16)
    ensures
        status == register_status_of(failure_of(*outcome)),
{
    match outcome {
        Ok(_) => OK,
        Err(e) => match escalate(*e) {
            AuthError::UserAlreadyExists => BAD_REQUEST,
            AuthError::WeakPassword => BAD_REQUEST,
            AuthError::Unexpected => INTERNAL_SERVER_ERROR,
            _ => NOT_IMPLEMENTED,
        },
    }
}

/// The status code that reports the outcome of a password change.
pub fn change_pass_status<T>(outcome: &Result<T, AuthError>) -> (status: u16)
    ensures
        status == change_pass_status_of(failure_of(*outcome)),
{
    match outcome {
        Ok(_) => OK,
        Err(e) => match escalate(*e) {
            AuthError::UserNotFound => NOT_FOUND,
            AuthError::IncorrectPassword => FORBIDDEN,
            AuthError::WeakPassword => BAD_REQUEST,
            AuthError::Unexpected => INTERNAL_SERVER_ERROR,
            _ => NOT_IMPLEMENTED,
        },
    }
}

/// The status code that reports the outcome of a login.
pub fn login_status<T>(outcome: &Result<T, AuthError>) -> (status: u16)
    ensures
        status == login_status_of(failure_of(*outcome)),
{
    match outcome {
        Ok(_) => OK,
        Err(e) => match escalate(*e) {
            AuthError::UserNotFound => UNAUTHORIZED,
            AuthError::IncorrectPassword => UNAUTHORIZED,
            _ => NOT_IMPLEMENTED,
        },
    }
}

} // verus!
