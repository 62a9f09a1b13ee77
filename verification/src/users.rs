//! The users as the store holds them, and what the answers of the store to
//! the three requests about them come to.

use vstd::prelude::*;
use crate::error::{DatabaseFailure, MyError};
use crate::requests::{users_info_errors, UsersInfo};
use crate::response::SuccessResponse;

verus! {

/// A user as the store holds it.
#[derive(Clone, Debug, PartialEq, Eq)]
pub struct Users {
    pub id: i32,
    pub name: String,
    pub email: String,
    pub username: String,
    /// The one-way hash of the password.
    pub password: String,
}

/// What is told of a user that was created.
#[derive(Clone, Copy, Debug, PartialEq, Eq, Structural)]
pub struct Created {
    /// The id that the store gave the user.
    pub id: i32,
}

/// Lists the users that the store returned, under status code 200 with an
/// empty message; a store that could not answer is an `InternalError`.
pub fn show(users: Result<Vec<Users>, DatabaseFailure>) -> (outcome: Result<
    SuccessResponse<Vec<Users>>,
    MyError,
>)
    ensures
        match users {
            Ok(list) => outcome matches Ok(response) && response.code == 200
                && response.message@.len() == 0 && response.data == list,
            Err(_) => outcome == Err::<SuccessResponse<Vec<Users>>, MyError>(
                MyError::InternalError,
            ),
        },
{
    match users {
        Ok(list) => Ok(SuccessResponse::new(String::new(), list)),
        Err(_) => Err(MyError::InternalError),
    }
}

/// Shows the user that the store returned for an id, under status code 200
/// with an empty message; no user of that id is `NotFound`, and a store that
/// could not answer is an `InternalError`.
pub fn detail(user: Result<Option<Users>, DatabaseFailure>) -> (outcome: Result<
    SuccessResponse<Users>,
    MyError,
>)
    ensures
        match user {
            Ok(Some(found)) => outcome matches Ok(response) && response.code == 200
                && response.message@.len() == 0 && response.data == found,
            Ok(None) => outcome == Err::<SuccessResponse<Users>, MyError>(MyError::NotFound),
            Err(_) => outcome == Err::<SuccessResponse<Users>, MyError>(MyError::InternalError),
        },
{
    match user {
        Ok(Some(found)) => Ok(SuccessResponse::new(String::new(), found)),
        Ok(None) => Err(MyError::NotFound),
        Err(_) => Err(MyError::InternalError),
    }
}

/// Whether `outcome` is what creating a user comes to, given what the store
/// answered to the insertion.
///
/// A request that breaks its rules fails with them, whatever the store
/// answered. Else the store's failure is passed on, or the new id comes back
/// under status code 200 with the message `created`.
pub open spec fn create_outcome(
    info: UsersInfo,
    inserted: Result<i32, DatabaseFailure>,
    outcome: Result<SuccessResponse<Created>, MyError>,
) -> bool {
    if users_info_errors(info.name@, info.email@).len() > 0 {
        outcome matches Err(MyError::ValidationError(errors)) && errors@ == users_info_errors(
            info.name@,
            info.email@,
        )
    } else {
        match inserted {
            Ok(id) => outcome matches Ok(response) && response.code == 200 && response.message@
                == "created"@ && response.data.id == id,
            Err(failure) => outcome == Err::<SuccessResponse<Created>, MyError>(
                MyError::DatabaseError(failure),
            ),
        }
    }
}

/// Answers a request to create a user, given what the store answered to the
/// insertion.
pub fn create(info: &UsersInfo, inserted: Result<i32, DatabaseFailure>) -> (outcome: Result<
    SuccessResponse<Created>,
    MyError,
>)
    ensures
        create_outcome(*info, inserted, outcome),
{
    match info.validate() {
        Ok(_) => {},
        Err(errors) => {
            return Err(MyError::ValidationError(errors));
        },
    }
    match inserted {
        Ok(id) => Ok(SuccessResponse::new("created".to_owned(), Created { id })),
        Err(failure) => Err(MyError::DatabaseError(failure)),
    }
}

} // verus!
