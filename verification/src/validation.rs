//! Validation of a request to create a user.

use crate::response::line_views;
use crate::user::CreateUserRequest;
use vstd::prelude::*;

verus! {

/// Whether a string is an email address, by the rules of the validator.
pub uninterp spec fn email_is_valid(email: Seq<char>) -> bool;

/// `ValidateEmail::validate_email` on a string slice. Trusted: it decides
/// whether `email` is an email address.
#[verifier::external_body]
pub(crate) fn validate_email(email: &str) -> (res: bool)
    ensures
        res == email_is_valid(email@),
{
    validator::ValidateEmail::validate_email(&email)
}

/// `ValidateLength::validate_length` on a string slice, with a minimum only.
/// Trusted: it tells whether `text` has at least `min` characters.
#[verifier::external_body]
pub(crate) fn validate_min_length(text: &str, min: u64) -> (res: bool)
    ensures
        res == (text@.len() >= min),
{
    validator::ValidateLength::validate_length(&text, Some(min), None, None)
}

/// A password is long enough with six characters.
pub open spec fn password_is_long_enough(password: Seq<char>) -> bool {
    password.len() >= 6
}

/// What is wrong with a request, the email first.
pub open spec fn validation_errors(email_ok: bool, password_ok: bool) -> Seq<Seq<char>> {
    (if email_ok {
        Seq::<Seq<char>>::empty()
    } else {
        seq!["email: Invalid email format"@]
    }) + (if password_ok {
        Seq::<Seq<char>>::empty()
    } else {
        seq!["password: Password must be at least 6 characters"@]
    })
}

/// What is wrong with a request, given what the two checks found.
pub fn validation_messages(email_ok: bool, password_ok: bool) -> (lines: Vec<String>)
    ensures
        line_views(lines@) == validation_errors(email_ok, password_ok),
{
    let mut lines: Vec<String> = Vec::new();
    if !email_ok {
        lines.push("email: Invalid email format".to_owned());
    }
    if !password_ok {
        lines.push("password: Password must be at least 6 characters".to_owned());
    }
    assert(line_views(lines@) =~= validation_errors(email_ok, password_ok));
    lines
}

impl CreateUserRequest {
    /// The request is valid: its email is an email address and its password
    /// has six characters or more.
    pub open spec fn is_valid(&self) -> bool {
        email_is_valid(self.email@) && password_is_long_enough(self.password@)
    }

    /// Checks the request, and lists what is wrong with it if anything is.
    pub fn validate(&self) -> (res: Result<(), Vec<String>>)
        ensures
            res is Ok <==> self.is_valid(),
            res is Err ==> line_views(res->Err_0@) == validation_errors(
                email_is_valid(self.email@),
                password_is_long_enough(self.password@),
            ),
    {
        let email_ok = validate_email(self.email.as_str());
        let password_ok = validate_min_length(self.password.as_str(), 6);
        if email_ok && password_ok {
            Ok(())
        } else {
            Err(validation_messages(email_ok, password_ok))
        }
    }
}

} // verus!
