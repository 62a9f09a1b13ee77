//! Sign-in: checking a submitted password against the stored hash, and
//! issuing a token to the user that it belongs to.

use vstd::prelude::*;
use crate::config::{Configuration, ConfigurationView};
use crate::error::{DatabaseFailure, MyError};
use crate::requests::{login_errors, LoginRequest};
use crate::response::SuccessResponse;
use crate::text::{signed_decimal, signed_decimal_string};
use crate::token::{issue_outcome, issue_subject, issue_subject_at, Token};
use crate::users::Users;

verus! {

/// The error type of the `bcrypt` crate.
#[verifier::external_type_specification]
#[verifier::external_body]
pub struct ExBcryptError(bcrypt::BcryptError);

/// What `bcrypt::verify` says of `password` against `hash`: whether they
/// match, or `None` where it fails, as on a malformed hash.
pub uninterp spec fn password_match(password: Seq<char>, hash: Seq<char>) -> Option<bool>;

/// Calls `bcrypt::verify`.
///
/// Trusted: the result is a function of the two texts alone.
#[verifier::external_body]
fn bcrypt_verify(password: &str, hash: &str) -> (outcome: Result<bool, bcrypt::BcryptError>)
    ensures
        match outcome {
            Ok(matches) => password_match(password@, hash@) == Some(matches),
            Err(_) => password_match(password@, hash@) is None,
        },
{
    bcrypt::verify(password, hash)
}

/// What the credential store answered when asked for a username.
#[derive(Clone, Debug, PartialEq, Eq)]
pub enum Lookup {
    /// The user of that name.
    Found(Users),
    /// No user has that name.
    Missing,
    /// The store could not answer.
    Failed(DatabaseFailure),
}

/// What checking `password` against the store's answer comes to: the id of
/// the user found, if the password matches the stored hash; `Unauthorized`
/// if it does not or the comparison itself fails; `NotFound` for no such
/// user; the store's failure where it could not answer.
pub open spec fn authenticated(lookup: Lookup, password: Seq<char>) -> Result<i32, MyError> {
    match lookup {
        Lookup::Found(user) => if password_match(password, user.password@) == Some(true) {
            Ok(user.id)
        } else {
            Err(MyError::Unauthorized)
        },
        Lookup::Missing => Err(MyError::NotFound),
        Lookup::Failed(failure) => Err(MyError::DatabaseError(failure)),
    }
}

/// Checks `password` against what the credential store answered for the
/// username, and gives the user's id where it matches.
pub fn authenticate(lookup: Lookup, password: &str) -> (outcome: Result<i32, MyError>)
    ensures
        outcome == authenticated(lookup, password@),
{
    match lookup {
        Lookup::Found(user) => match bcrypt_verify(password, user.password.as_str()) {
            Ok(true) => Ok(user.id),
            Ok(false) => Err(MyError::Unauthorized),
            Err(_) => Err(MyError::Unauthorized),
        },
        Lookup::Missing => Err(MyError::NotFound),
        Lookup::Failed(failure) => Err(MyError::DatabaseError(failure)),
    }
}

/// Whether `outcome` is what a sign-in at the moment `now` comes to.
///
/// A request that breaks its rules fails with them, whatever the store
/// answered. Else a failed check of the password fails as [`authenticated`]
/// says. Else a token is issued as [`issue_outcome`] says for the user's id,
/// written in decimal with its sign, and comes back under status code 200
/// with an empty message, or the failure to issue it comes back as
/// `InternalError`.
pub open spec fn sign_in_outcome(
    config: ConfigurationView,
    request: LoginRequest,
    lookup: Lookup,
    now: i64,
    outcome: Result<SuccessResponse<Token>, MyError>,
) -> bool {
    if login_errors(request.username@, request.password@).len() > 0 {
        outcome matches Err(MyError::ValidationError(errors)) && errors@ == login_errors(
            request.username@,
            request.password@,
        )
    } else {
        match authenticated(lookup, request.password@) {
            Ok(id) => match outcome {
                Ok(response) => {
                    &&& response.code == 200
                    &&& response.message@.len() == 0
                    &&& issue_outcome(config, signed_decimal(id as int), now, Ok(response.data))
                },
                Err(error) => {
                    &&& error == MyError::InternalError
                    &&& issue_outcome(
                        config,
                        signed_decimal(id as int),
                        now,
                        Err(MyError::InternalError),
                    )
                },
            },
            Err(error) => outcome == Err::<SuccessResponse<Token>, MyError>(error),
        }
    }
}

/// Wraps an issued token for the client, or reports the failure to issue.
fn respond(issued: Result<Token, MyError>) -> (outcome: Result<SuccessResponse<Token>, MyError>)
    ensures
        match issued {
            Ok(token) => outcome matches Ok(response) && response.code == 200
                && response.message@.len() == 0 && response.data == token,
            Err(_) => outcome == Err::<SuccessResponse<Token>, MyError>(MyError::InternalError),
        },
{
    match issued {
        Ok(token) => Ok(SuccessResponse::new(String::new(), token)),
        Err(_) => Err(MyError::InternalError),
    }
}

/// Signs a user in as of the moment `now`, given what the credential store
/// answered for the request's username.
pub fn sign_in_at(config: &Configuration, request: &LoginRequest, lookup: Lookup, now: i64) -> (outcome:
    Result<SuccessResponse<Token>, MyError>)
    ensures
        sign_in_outcome(config@, *request, lookup, now, outcome),
{
    match request.validate() {
        Ok(_) => {},
        Err(errors) => {
            return Err(MyError::ValidationError(errors));
        },
    }
    let id = match authenticate(lookup, request.password.as_str()) {
        Ok(id) => id,
        Err(error) => {
            return Err(error);
        },
    };
    let subject = signed_decimal_string(id);
    respond(issue_subject_at(config, subject.as_str(), now))
}

/// Signs a user in as of now, by the system's clock, given what the
/// credential store answered for the request's username.
pub fn sign_in(config: &Configuration, request: &LoginRequest, lookup: Lookup) -> (outcome: Result<
    SuccessResponse<Token>,
    MyError,
>)
    ensures
        exists|now: i64| 0 <= now && sign_in_outcome(config@, *request, lookup, now, outcome),
{
    match request.validate() {
        Ok(_) => {},
        Err(errors) => {
            let outcome = Err(MyError::ValidationError(errors));
            assert(sign_in_outcome(config@, *request, lookup, 0, outcome));
            return outcome;
        },
    }
    let id = match authenticate(lookup, request.password.as_str()) {
        Ok(id) => id,
        Err(error) => {
            let outcome = Err(error);
            assert(sign_in_outcome(config@, *request, lookup, 0, outcome));
            return outcome;
        },
    };
    let subject = signed_decimal_string(id);
    let issued = issue_subject(config, subject.as_str());
    let ghost now = choose|now: i64| 0 <= now && issue_outcome(config@, subject@, now, issued);
    let outcome = respond(issued);
    assert(0 <= now && sign_in_outcome(config@, *request, lookup, now, outcome));
    outcome
}

} // verus!
