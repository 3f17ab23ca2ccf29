//! The failures of the REST surface and how each is reported.

use crate::text::join;
use vstd::prelude::*;
use vstd::string::StringExecFns;

verus! {

/// A failure of a request.
#[derive(Clone, Debug, PartialEq, Eq)]
pub enum ApiError {
    /// No resource has the identifier that was asked for.
    NotFound,
    /// The storage failed; the text is its own report.
    Database(String),
    /// The request was not acceptable; the text says why.
    Validation(String),
    /// The request carried no credentials where they are required.
    Unauthorized,
    /// Anything else.
    Internal,
}

/// What is sent back for a failed request: the HTTP status, and the two
/// fields `code` and `error` of the body.
#[derive(Clone, Debug, PartialEq, Eq)]
pub struct ErrorResponse {
    pub status: u16,
    pub code: String,
    pub error: String,
}

impl ApiError {
    /// The description of the failure.
    pub open spec fn text(self) -> Seq<char> {
        match self {
            ApiError::NotFound => "Resource not found"@,
            ApiError::Database(message) => "Database error: "@ + message@,
            ApiError::Validation(message) => "Validation error: "@ + message@,
            ApiError::Unauthorized => "Unauthorized"@,
            ApiError::Internal => "Internal server error"@,
        }
    }

    /// The HTTP status that reports the failure.
    pub open spec fn status(self) -> u16 {
        match self {
            ApiError::NotFound => 404,
            ApiError::Database(_) => 500,
            ApiError::Validation(_) => 400,
            ApiError::Unauthorized => 401,
            ApiError::Internal => 500,
        }
    }

    /// The machine readable code of the failure.
    pub open spec fn code_text(self) -> Seq<char> {
        match self {
            ApiError::NotFound => "NOT_FOUND"@,
            ApiError::Database(_) => "DATABASE_ERROR"@,
            ApiError::Validation(_) => "VALIDATION_ERROR"@,
            ApiError::Unauthorized => "UNAUTHORIZED"@,
            ApiError::Internal => "INTERNAL_ERROR"@,
        }
    }

    /// The `error` field of the body: the bare report of a storage or
    /// validation failure, the description of any other.
    pub open spec fn body_text(self) -> Seq<char> {
        match self {
            ApiError::Database(message) => message@,
            ApiError::Validation(message) => message@,
            _ => self.text(),
        }
    }

    /// The description of the failure, as its display form.
    pub fn message(&self) -> (text: String)
        ensures
            text@ == self.text(),
    {
        match self {
            ApiError::NotFound => String::from_str("Resource not found"),
            ApiError::Database(message) => join("Database error: ", message.as_str()),
            ApiError::Validation(message) => join("Validation error: ", message.as_str()),
            ApiError::Unauthorized => String::from_str("Unauthorized"),
            ApiError::Internal => String::from_str("Internal server error"),
        }
    }

    /// The HTTP status that reports the failure.
    pub fn status_code(&self) -> (status: u16)
        ensures
            status == self.status(),
    {
        match self {
            ApiError::NotFound => 404,
            ApiError::Database(_) => 500,
            ApiError::Validation(_) => 400,
            ApiError::Unauthorized => 401,
            ApiError::Internal => 500,
        }
    }

    /// The machine readable code of the failure.
    pub fn code(&self) -> (code: &'static str)
        ensures
            code@ == self.code_text(),
    {
        match self {
            ApiError::NotFound => "NOT_FOUND",
            ApiError::Database(_) => "DATABASE_ERROR",
            ApiError::Validation(_) => "VALIDATION_ERROR",
            ApiError::Unauthorized => "UNAUTHORIZED",
            ApiError::Internal => "INTERNAL_ERROR",
        }
    }

    /// The response that reports the failure.
    pub fn into_response(self) -> (response: ErrorResponse)
        ensures
            response.status == self.status(),
            response.code@ == self.code_text(),
            response.error@ == self.body_text(),
    {
        let status = self.status_code();
        let code = String::from_str(self.code());
        let error = match &self {
            ApiError::Database(message) => message.clone(),
            ApiError::Validation(message) => message.clone(),
            _ => self.message(),
        };
        ErrorResponse { status, code, error }
    }
}

} // verus!
