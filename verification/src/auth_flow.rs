//! The registration confirmation flow: what the confirmation endpoint
//! decides from its query parameters and the token lookup, and the
//! flash line each outcome shows. Looking the token up and logging the
//! user in are storage and session work done by the enclosing service.

use vstd::prelude::*;
use vstd::string::StringExecFns;

verus! {

/// Query parameters of the confirmation endpoint.
pub struct Params {
    pub register_token: Option<String>,
}

/// What the confirmation endpoint does.
#[derive(Clone, Copy, Debug, PartialEq, Eq, Structural)]
pub enum ConfirmOutcome {
    /// No token was presented: show the confirmation form.
    ShowForm,
    /// The token matched this user: confirm the account and log the
    /// user in.
    Confirmed(i64),
    /// The token matched no user: reject as unauthorized.
    InvalidToken,
}

/// Decides the confirmation request: without a token the form is
/// shown; with one, the token lookup's answer decides between
/// confirming that user and rejecting the token.
pub fn confirm_outcome(params: &Params, lookup: Option<i64>) -> (r: ConfirmOutcome)
    ensures
        params.register_token is None ==> r == ConfirmOutcome::ShowForm,
        params.register_token is Some ==> r == (match lookup {
            Some(uid) => ConfirmOutcome::Confirmed(uid),
            None => ConfirmOutcome::InvalidToken,
        }),
{
    if params.register_token.is_none() {
        return ConfirmOutcome::ShowForm;
    }
    match lookup {
        Some(uid) => ConfirmOutcome::Confirmed(uid),
        None => ConfirmOutcome::InvalidToken,
    }
}

impl ConfirmOutcome {
    /// The flash line shown for the outcome.
    pub fn flash_message(&self) -> (r: String)
        ensures
            self is ShowForm ==> r@ == "Check your email for the confirmation link"@,
            self is Confirmed ==> r@ == "Welcome! You are now registered"@,
            self is InvalidToken ==> r@ == "invalid register token"@,
    {
        match self {
            ConfirmOutcome::ShowForm => String::from_str(
                "Check your email for the confirmation link",
            ),
            ConfirmOutcome::Confirmed(_) => String::from_str("Welcome! You are now registered"),
            ConfirmOutcome::InvalidToken => String::from_str("invalid register token"),
        }
    }
}

} // verus!
