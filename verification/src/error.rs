//! The errors of the service, their messages and codes.
use vstd::prelude::*;

use crate::text::debug_quoted;

verus! {

/// Errors reported by the service.
#[derive(Debug)]
pub enum AppError {
    DatabaseError(String),
    ValidationError(String),
    NotFound(String),
    Unauthorized(String),
    Forbidden(String),
    InternalServerError(String),
    ConfigError(String),
    AuthError(String),
}

impl AppError {
    /// The text carried by the error.
    pub open spec fn detail(&self) -> Seq<char> {
        match self {
            AppError::DatabaseError(m) => m@,
            AppError::ValidationError(m) => m@,
            AppError::NotFound(m) => m@,
            AppError::Unauthorized(m) => m@,
            AppError::Forbidden(m) => m@,
            AppError::InternalServerError(m) => m@,
            AppError::ConfigError(m) => m@,
            AppError::AuthError(m) => m@,
        }
    }

    /// The label that the displayed message starts with.
    pub open spec fn label(&self) -> Seq<char> {
        match self {
            AppError::DatabaseError(_) => "Database error: "@,
            AppError::ValidationError(_) => "Validation error: "@,
            AppError::NotFound(_) => "Not found: "@,
            AppError::Unauthorized(_) => "Unauthorized: "@,
            AppError::Forbidden(_) => "Forbidden: "@,
            AppError::InternalServerError(_) => "Internal server error: "@,
            AppError::ConfigError(_) => "Configuration error: "@,
            AppError::AuthError(_) => "Authentication error: "@,
        }
    }

    /// The machine-readable code that GraphQL responses carry.
    pub open spec fn spec_code(&self) -> Seq<char> {
        match self {
            AppError::DatabaseError(_) => "DATABASE_ERROR"@,
            AppError::ValidationError(_) => "VALIDATION_ERROR"@,
            AppError::NotFound(_) => "NOT_FOUND"@,
            AppError::Unauthorized(_) => "UNAUTHORIZED"@,
            AppError::Forbidden(_) => "FORBIDDEN"@,
            AppError::InternalServerError(_) => "INTERNAL_SERVER_ERROR"@,
            AppError::ConfigError(_) => "CONFIG_ERROR"@,
            AppError::AuthError(_) => "AUTH_ERROR"@,
        }
    }

    /// The human-readable message: the label followed by the detail.
    pub fn to_string(&self) -> (res: String)
        ensures
            res@ == self.label() + self.detail(),
    {
        let (label, detail) = match self {
            AppError::DatabaseError(m) => ("Database error: ", m),
            AppError::ValidationError(m) => ("Validation error: ", m),
            AppError::NotFound(m) => ("Not found: ", m),
            AppError::Unauthorized(m) => ("Unauthorized: ", m),
            AppError::Forbidden(m) => ("Forbidden: ", m),
            AppError::InternalServerError(m) => ("Internal server error: ", m),
            AppError::ConfigError(m) => ("Configuration error: ", m),
            AppError::AuthError(m) => ("Authentication error: ", m),
        };
        let mut out = label.to_owned();
        out.append(detail.as_str());
        out
    }

    /// The error code attached to the GraphQL form of this error.
    pub fn code(&self) -> (res: &'static str)
        ensures
            res@ == self.spec_code(),
    {
        match self {
            AppError::DatabaseError(_) => "DATABASE_ERROR",
            AppError::ValidationError(_) => "VALIDATION_ERROR",
            AppError::NotFound(_) => "NOT_FOUND",
            AppError::Unauthorized(_) => "UNAUTHORIZED",
            AppError::Forbidden(_) => "FORBIDDEN",
            AppError::InternalServerError(_) => "INTERNAL_SERVER_ERROR",
            AppError::ConfigError(_) => "CONFIG_ERROR",
            AppError::AuthError(_) => "AUTH_ERROR",
        }
    }
}

/// Whether a result is a `ValidationError` with the given text.
pub open spec fn is_validation_error<T>(r: Result<T, AppError>, msg: Seq<char>) -> bool {
    r matches Err(AppError::ValidationError(m)) && m@ == msg
}

/// Whether a result is a `DatabaseError` with the given text.
pub open spec fn is_database_error<T>(r: Result<T, AppError>, msg: Seq<char>) -> bool {
    r matches Err(AppError::DatabaseError(m)) && m@ == msg
}

/// The message that `build` gives a failed builder step.
pub open spec fn build_failure_message(context: Seq<char>, cause: Seq<char>) -> Seq<char> {
    context + ": "@ + crate::text::str_debug_repr(cause)
}

/// Passes a builder's success through, and turns its failure, given as the
/// text of its error, into a `DatabaseError` that names the failed step.
pub fn build<T>(builder_result: Result<T, String>, context: &str) -> (res: Result<T, AppError>)
    ensures
        builder_result is Ok ==> res == Ok::<T, AppError>(builder_result->Ok_0),
        builder_result is Err ==> (res matches Err(AppError::DatabaseError(m))
            && m@ == build_failure_message(context@, builder_result->Err_0@)),
{
    match builder_result {
        Ok(v) => Ok(v),
        Err(e) => {
            let mut msg = context.to_owned();
            msg.append(": ");
            let quoted = debug_quoted(e.as_str());
            msg.append(quoted.as_str());
            Err(AppError::DatabaseError(msg))
        },
    }
}

} // verus!
