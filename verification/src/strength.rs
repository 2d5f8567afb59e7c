//! The strength policy: a password is accepted when the `zxcvbn` estimator,
//! told of the account's own login and email, gives it a score of at least
//! `MIN_SCORE`.

use vstd::prelude::*;

verus! {

/// The lowest score, on the estimator's scale of 0 to 4, that is accepted.
pub const MIN_SCORE: u8 = 3;

/// Whether an estimate passes the policy. `None` stands for an estimator that
/// gave no score: that is never strong.
pub open spec fn strong_enough(score: Option<u8>) -> bool {
    score matches Some(s) && s >= MIN_SCORE
}

/// `zxcvbn::Entropy`, the estimator's report.
#[verifier::external_type_specification]
#[verifier::external_body]
pub struct ExEntropy(zxcvbn::Entropy);

/// `zxcvbn::ZxcvbnError`, the estimator's refusal.
#[verifier::external_type_specification]
#[verifier::external_body]
pub struct ExZxcvbnError(zxcvbn::ZxcvbnError);

/// `zxcvbn::zxcvbn`: an empty password is refused before anything else is
/// looked at. Nothing more is claimed: the estimate counts years from the
/// current one, so the same password may score differently at another time.
/// The function reads the wall clock twice and panics if the clock was set
/// back in between.
pub assume_specification[ zxcvbn::zxcvbn ](password: &str, user_inputs: &[&str]) -> (r: Result<
    zxcvbn::Entropy,
    zxcvbn::ZxcvbnError,
>)
    ensures
        password@.len() == 0 ==> r is Err,
;

/// `zxcvbn::Entropy::score`: a score from 0 to 4.
pub assume_specification[ zxcvbn::Entropy::score ](entropy: &zxcvbn::Entropy) -> (score: u8)
    ensures
        score <= 4,
;

/// Applies the policy to an estimate.
pub fn score_is_strong(score: Option<u8>) -> (strong: bool)
    ensures
        strong == strong_enough(score),
{
    match score {
        Some(s) => s >= MIN_SCORE,
        None => false,
    }
}

/// Estimates `user_password` against `user_inputs` (the strings that an
/// attacker would try first: the account's login and email) and applies the
/// policy. An estimator that fails counts as "not strong".
///
/// The verdict is the estimator's; what is certain beforehand is only that an
/// empty password is never strong.
pub fn is_strong(user_password: &str, user_inputs: &[&str]) -> (strong: bool)
    ensures
        user_password@.len() == 0 ==> !strong,
{
    let score = match zxcvbn::zxcvbn(user_password, user_inputs) {
        Ok(entropy) => Some(entropy.score()),
        Err(_) => None,
    };
    score_is_strong(score)
}

} // verus!
