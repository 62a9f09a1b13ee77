//! The bodies of the requests that carry data, and the rules their fields
//! must keep.

use vstd::prelude::*;
use vstd::string::*;
use crate::error::{FieldError, FieldErrorView, ValidationErrors};

verus! {

/// Whether the `validator` crate's `ValidateEmail::validate_email` takes
/// `email` for an e-mail address.
pub uninterp spec fn email_accepted(email: Seq<char>) -> bool;

/// Calls `validator::ValidateEmail::validate_email` on `email`.
///
/// Trusted: the answer is a function of the text alone.
#[verifier::external_body]
fn is_email(email: &str) -> (accepted: bool)
    ensures
        accepted == email_accepted(email@),
{
    validator::ValidateEmail::validate_email(&email)
}

/// Whether a text of `length` characters keeps the bounds, each of which
/// holds only where it is set.
pub open spec fn length_within(length: nat, min: Option<u64>, max: Option<u64>) -> bool {
    &&& min matches Some(least) ==> least <= length
    &&& max matches Some(most) ==> length <= most
}

/// The report of a text whose number of characters breaks its bounds.
pub open spec fn length_error(
    field: Seq<char>,
    message: Seq<char>,
    min: Option<u64>,
    max: Option<u64>,
    value: Seq<char>,
) -> FieldErrorView {
    FieldErrorView { field, code: "length"@, message, min, max, value }
}

/// The report of a text that is no e-mail address.
pub open spec fn email_error(field: Seq<char>, message: Seq<char>, value: Seq<char>) -> FieldErrorView {
    FieldErrorView { field, code: "email"@, message, min: None, max: None, value }
}

/// What a check of a text's length reports: nothing where the number of its
/// characters keeps the bounds, else the one report of it.
pub open spec fn length_errors(
    field: Seq<char>,
    message: Seq<char>,
    min: Option<u64>,
    max: Option<u64>,
    value: Seq<char>,
) -> Seq<FieldErrorView> {
    if length_within(value.len(), min, max) {
        Seq::empty()
    } else {
        seq![length_error(field, message, min, max, value)]
    }
}

/// What a check of an e-mail address reports: nothing where the text is
/// accepted as one, else the one report of it.
pub open spec fn email_errors(field: Seq<char>, message: Seq<char>, value: Seq<char>) -> Seq<
    FieldErrorView,
> {
    if email_accepted(value) {
        Seq::empty()
    } else {
        seq![email_error(field, message, value)]
    }
}

/// Checks the number of characters of `value` against the bounds and adds
/// the report to `errors` where it breaks them.
fn check_length(
    errors: &mut ValidationErrors,
    field: &str,
    message: &str,
    min: Option<u64>,
    max: Option<u64>,
    value: &str,
)
    ensures
        final(errors)@ == old(errors)@ + length_errors(field@, message@, min, max, value@),
{
    let length: usize = value.unicode_len();
    let above = match min {
        Some(least) => least <= length as u64,
        None => true,
    };
    let below = match max {
        Some(most) => length as u64 <= most,
        None => true,
    };
    if !(above && below) {
        let ghost before = errors@;
        errors.errors.push(
            FieldError {
                field: field.to_owned(),
                code: "length".to_owned(),
                message: message.to_owned(),
                min,
                max,
                value: value.to_owned(),
            },
        );
        assert(errors@ =~= before + length_errors(field@, message@, min, max, value@));
    } else {
        assert(errors@ =~= old(errors)@ + length_errors(field@, message@, min, max, value@));
    }
}

/// Checks that `value` is an e-mail address and adds the report to `errors`
/// where it is none.
fn check_email(errors: &mut ValidationErrors, field: &str, message: &str, value: &str)
    ensures
        final(errors)@ == old(errors)@ + email_errors(field@, message@, value@),
{
    if !is_email(value) {
        let ghost before = errors@;
        errors.errors.push(
            FieldError {
                field: field.to_owned(),
                code: "email".to_owned(),
                message: message.to_owned(),
                min: None,
                max: None,
                value: value.to_owned(),
            },
        );
        assert(errors@ =~= before + email_errors(field@, message@, value@));
    } else {
        assert(errors@ =~= old(errors)@ + email_errors(field@, message@, value@));
    }
}

/// The body of a sign-in request.
#[derive(Clone, Debug, PartialEq, Eq)]
pub struct LoginRequest {
    pub username: String,
    pub password: String,
}

/// What a sign-in request with these fields breaks: a username of 1 to 20
/// characters and a password of 6 to 20 characters break nothing.
pub open spec fn login_errors(username: Seq<char>, password: Seq<char>) -> Seq<FieldErrorView> {
    length_errors("username"@, "username is not blank"@, Some(1), Some(20), username)
        + length_errors("password"@, "password is invalid"@, Some(6), Some(20), password)
}

impl LoginRequest {
    /// Checks the fields against their rules: `Ok` exactly if none is
    /// broken, else the broken ones, the username's first.
    pub fn validate(&self) -> (outcome: Result<(), ValidationErrors>)
        ensures
            match outcome {
                Ok(_) => login_errors(self.username@, self.password@).len() == 0,
                Err(errors) => errors@ == login_errors(self.username@, self.password@)
                    && errors@.len() > 0,
            },
    {
        let mut errors = ValidationErrors { errors: Vec::new() };
        assert(errors@ =~= Seq::empty());
        check_length(
            &mut errors,
            "username",
            "username is not blank",
            Some(1),
            Some(20),
            self.username.as_str(),
        );
        check_length(
            &mut errors,
            "password",
            "password is invalid",
            Some(6),
            Some(20),
            self.password.as_str(),
        );
        assert(errors@ =~= login_errors(self.username@, self.password@));
        if errors.errors.len() == 0 {
            Ok(())
        } else {
            Err(errors)
        }
    }
}

/// The body of a request that creates a user.
#[derive(Clone, Debug, PartialEq, Eq)]
pub struct UsersInfo {
    pub name: String,
    pub email: String,
}

/// What a request to create a user with these fields breaks: a name of at
/// least one character and an e-mail address that is accepted as one break
/// nothing.
pub open spec fn users_info_errors(name: Seq<char>, email: Seq<char>) -> Seq<FieldErrorView> {
    length_errors("name"@, "Name is not blank"@, Some(1), None, name) + email_errors(
        "email"@,
        "Email is invalid"@,
        email,
    )
}

impl UsersInfo {
    /// Checks the fields against their rules: `Ok` exactly if none is
    /// broken, else the broken ones, the name's first.
    pub fn validate(&self) -> (outcome: Result<(), ValidationErrors>)
        ensures
            match outcome {
                Ok(_) => users_info_errors(self.name@, self.email@).len() == 0,
                Err(errors) => errors@ == users_info_errors(self.name@, self.email@) && errors@.len()
                    > 0,
            },
    {
        let mut errors = ValidationErrors { errors: Vec::new() };
        assert(errors@ =~= Seq::empty());
        check_length(&mut errors, "name", "Name is not blank", Some(1), None, self.name.as_str());
        check_email(&mut errors, "email", "Email is invalid", self.email.as_str());
        assert(errors@ =~= users_info_errors(self.name@, self.email@));
        if errors.errors.len() == 0 {
            Ok(())
        } else {
            Err(errors)
        }
    }
}

} // verus!
