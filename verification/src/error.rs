//! The failures that a request can end in, and the body that reports each.

use vstd::prelude::*;
use crate::text::text_eq;

verus! {

/// One rule that one field of a request broke.
#[derive(Clone, Debug, PartialEq, Eq)]
pub struct FieldError {
    /// The name of the field.
    pub field: String,
    /// The kind of rule: `"length"` or `"email"`.
    pub code: String,
    /// The message for the caller.
    pub message: String,
    /// The least number of characters the rule allows, if it sets one.
    pub min: Option<u64>,
    /// The greatest number of characters the rule allows, if it sets one.
    pub max: Option<u64>,
    /// The value that was refused.
    pub value: String,
}

/// A broken rule as contracts speak of it.
pub struct FieldErrorView {
    pub field: Seq<char>,
    pub code: Seq<char>,
    pub message: Seq<char>,
    pub min: Option<u64>,
    pub max: Option<u64>,
    pub value: Seq<char>,
}

impl View for FieldError {
    type V = FieldErrorView;

    open spec fn view(&self) -> FieldErrorView {
        FieldErrorView {
            field: self.field@,
            code: self.code@,
            message: self.message@,
            min: self.min,
            max: self.max,
            value: self.value@,
        }
    }
}

impl FieldError {
    /// A copy with the same contents.
    pub fn duplicate(&self) -> (copy: FieldError)
        ensures
            copy@ == self@,
    {
        FieldError {
            field: self.field.clone(),
            code: self.code.clone(),
            message: self.message.clone(),
            min: self.min,
            max: self.max,
            value: self.value.clone(),
        }
    }
}

/// The rules that a request broke, in the order of its fields.
#[derive(Clone, Debug, PartialEq, Eq)]
pub struct ValidationErrors {
    pub errors: Vec<FieldError>,
}

impl View for ValidationErrors {
    type V = Seq<FieldErrorView>;

    open spec fn view(&self) -> Seq<FieldErrorView> {
        Seq::new(self.errors@.len(), |i: int| self.errors@[i]@)
    }
}

impl ValidationErrors {
    /// A copy that lists the same broken rules in the same order.
    pub fn duplicate(&self) -> (copy: ValidationErrors)
        ensures
            copy@ == self@,
    {
        let mut errors: Vec<FieldError> = Vec::new();
        let mut i: usize = 0;
        while i < self.errors.len()
            invariant
                i <= self.errors.len(),
                errors@.len() == i,
                forall|j: int| 0 <= j < i ==> errors@[j]@ == self.errors@[j]@,
            decreases self.errors.len() - i,
        {
            errors.push(self.errors[i].duplicate());
            i += 1;
        }
        let copy = ValidationErrors { errors };
        assert(copy@ =~= self@);
        copy
    }
}

/// What the database itself said about a query it refused.
#[derive(Clone, Debug, PartialEq, Eq)]
pub struct DatabaseReport {
    /// The SQLSTATE code, where the database gave one.
    pub code: Option<String>,
    /// The database's own message.
    pub message: String,
}

/// A query that failed for any reason other than an absent row.
#[derive(Clone, Debug, PartialEq, Eq)]
pub struct DatabaseFailure {
    /// The database's report, where the failure came from the database.
    pub report: Option<DatabaseReport>,
    /// The failure as the driver prints it.
    pub text: String,
}

/// The SQLSTATE code of a unique-constraint violation.
pub open spec fn unique_violation() -> Seq<char> {
    "23505"@
}

impl DatabaseFailure {
    /// The message shown to the caller: the database's own words for a
    /// unique-constraint violation, the driver's text for any other report,
    /// and a fixed sentence where the database reported nothing.
    pub open spec fn spec_message(&self) -> Seq<char> {
        match self.report {
            Some(report) => match report.code {
                Some(code) => if code@ == unique_violation() {
                    report.message@
                } else {
                    self.text@
                },
                None => self.text@,
            },
            None => "unknown database error"@,
        }
    }

    /// Computes [`Self::spec_message`].
    pub fn message(&self) -> (message: String)
        ensures
            message@ == self.spec_message(),
    {
        match &self.report {
            Some(report) => {
                let unique = match &report.code {
                    Some(code) => text_eq(code.as_str(), "23505"),
                    None => false,
                };
                if unique {
                    report.message.clone()
                } else {
                    self.text.clone()
                }
            },
            None => "unknown database error".to_owned(),
        }
    }
}

/// Every way in which a request can fail.
#[derive(Clone, Debug, PartialEq, Eq)]
pub enum MyError {
    /// The token is absent, malformed, wrongly signed or expired, or the
    /// password is wrong.
    Unauthorized,
    /// The server's configuration is absent or unusable, or signing failed.
    InternalError,
    /// Nothing is stored under the name that was asked for.
    NotFound,
    /// The request's fields broke the rules listed.
    ValidationError(ValidationErrors),
    /// The database refused the query.
    DatabaseError(DatabaseFailure),
}

/// The body that reports a failure other than a broken rule.
#[derive(Clone, Debug, PartialEq, Eq)]
pub struct ErrorResponse {
    pub code: u16,
    pub message: String,
}

/// The body that reports broken rules.
#[derive(Clone, Debug, PartialEq, Eq)]
pub struct ValidationErrorResponse {
    pub code: u16,
    pub message: String,
    pub errors: ValidationErrors,
}

/// The body of a failed request, in one of its two shapes.
#[derive(Clone, Debug, PartialEq, Eq)]
pub enum ApiResponse {
    ValidationError(ValidationErrorResponse),
    GeneralError(ErrorResponse),
}

impl MyError {
    /// The HTTP status code that stands for this failure.
    pub open spec fn spec_status_code(&self) -> u16 {
        match self {
            MyError::Unauthorized => 401,
            MyError::InternalError => 500,
            MyError::NotFound => 404,
            MyError::ValidationError(_) => 400,
            MyError::DatabaseError(_) => 400,
        }
    }

    /// The short name of this kind of failure.
    pub open spec fn spec_message(&self) -> Seq<char> {
        match self {
            MyError::Unauthorized => "unauthorized"@,
            MyError::InternalError => "internal error"@,
            MyError::NotFound => "not found"@,
            MyError::ValidationError(_) => "validation error"@,
            MyError::DatabaseError(_) => "database error"@,
        }
    }

    /// The message that the body carries: for a database failure what
    /// [`DatabaseFailure::spec_message`] picks, else the kind's short name.
    pub open spec fn spec_response_message(&self) -> Seq<char> {
        match self {
            MyError::DatabaseError(failure) => failure.spec_message(),
            _ => self.spec_message(),
        }
    }

    /// Whether `body` is the body that reports this failure: the two-field
    /// shape with the status code and the message, or, for broken rules, the
    /// three-field shape that lists them too.
    pub open spec fn reported_as(&self, body: ApiResponse) -> bool {
        match self {
            MyError::ValidationError(errors) => {
                &&& body matches ApiResponse::ValidationError(b)
                &&& b.code == self.spec_status_code()
                &&& b.message@ == self.spec_message()
                &&& b.errors@ == errors@
            },
            _ => {
                &&& body matches ApiResponse::GeneralError(b)
                &&& b.code == self.spec_status_code()
                &&& b.message@ == self.spec_response_message()
            },
        }
    }

    /// Computes [`Self::spec_status_code`].
    pub fn status_code(&self) -> (code: u16)
        ensures
            code == self.spec_status_code(),
    {
        match self {
            MyError::Unauthorized => 401,
            MyError::InternalError => 500,
            MyError::NotFound => 404,
            MyError::ValidationError(_) => 400,
            MyError::DatabaseError(_) => 400,
        }
    }

    /// Computes [`Self::spec_message`].
    pub fn message(&self) -> (message: String)
        ensures
            message@ == self.spec_message(),
    {
        match self {
            MyError::Unauthorized => "unauthorized".to_owned(),
            MyError::InternalError => "internal error".to_owned(),
            MyError::NotFound => "not found".to_owned(),
            MyError::ValidationError(_) => "validation error".to_owned(),
            MyError::DatabaseError(_) => "database error".to_owned(),
        }
    }

    /// Builds the body that reports this failure.
    pub fn error_response(&self) -> (body: ApiResponse)
        ensures
            self.reported_as(body),
    {
        match self {
            MyError::ValidationError(errors) => ApiResponse::ValidationError(
                ValidationErrorResponse {
                    code: self.status_code(),
                    message: self.message(),
                    errors: errors.duplicate(),
                },
            ),
            MyError::DatabaseError(failure) => ApiResponse::GeneralError(
                ErrorResponse { code: self.status_code(), message: failure.message() },
            ),
            _ => ApiResponse::GeneralError(
                ErrorResponse { code: self.status_code(), message: self.message() },
            ),
        }
    }
}

} // verus!
