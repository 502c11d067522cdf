//! Request and response shapes, with their validation rules.

pub mod auth;
pub mod role;
pub mod user;
pub mod workspace;
pub mod workspace_user;

use vstd::prelude::*;

verus! {

/// A success envelope: a status label and a message.
#[derive(Clone, Debug)]
pub struct Response {
    pub status: &'static str,
    pub message: String,
}

/// Whether a string is a well-formed email address, as the validation
/// layer judges it: a function of the string alone.
pub uninterp spec fn email_ok(s: Seq<char>) -> bool;

/// Relies on validator's ValidateEmail rule for strings: the verdict
/// depends on the string alone.
#[verifier::external_body]
fn validate_email_str(s: &String) -> (r: bool)
    ensures
        r == email_ok(s@),
{
    validator::ValidateEmail::validate_email(s)
}

/// Whether an email field passes its rules: five to two hundred
/// fifty-four characters, and well-formed.
pub open spec fn email_format_valid(s: Seq<char>) -> bool {
    5 <= s.len() <= 254 && email_ok(s)
}

/// Checks one email field: length bounds, then the well-formedness rule.
pub(crate) fn validate_email_field(email: &String) -> (r: Result<(), String>)
    ensures
        r is Ok <==> email_format_valid(email@),
{
    let len = email.as_str().unicode_len();
    if len < 5 || len > 254 {
        return Err(String::from_str("Email must be between 5 and 254 characters"));
    }
    if !validate_email_str(email) {
        return Err(String::from_str("Invalid email address"));
    }
    Ok(())
}

} // verus!
