//! Input validation at the boundary: the email well-formedness check,
//! shared by registration, login credentials and mail payloads.

use vstd::prelude::*;

verus! {

/// What the email check of the validation library accepts: a
/// well-formed address per the HTML5 email grammar. The result depends
/// on the characters of the address alone.
pub uninterp spec fn is_valid_email(s: Seq<char>) -> bool;

/// Relies on validator's `ValidateEmail::validate_email` for `&str`:
/// deterministic in the string; an empty string, or one without `'@'`,
/// is rejected.
#[verifier::external_body]
pub(crate) fn email_is_valid(s: &str) -> (r: bool)
    ensures
        r == is_valid_email(s@),
        s@.len() == 0 ==> !r,
{
    validator::ValidateEmail::validate_email(&s)
}

} // verus!
