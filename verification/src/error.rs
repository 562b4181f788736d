//! The gateway's own error taxonomy and how each error appears to a caller.
use vstd::prelude::*;

verus! {

use crate::json::json_escape;
use crate::json::json_escaped;

#[derive(Debug)]
pub enum AppError {
    NotFound,
    Unauthorized,
    InternalServerError,
    ValidationError(String),
}

/// The text a caller sees in the error body.
pub open spec fn spec_response_message(e: AppError) -> Seq<char> {
    match e {
        AppError::NotFound => "Resource not found"@,
        AppError::Unauthorized => "Unauthorized"@,
        AppError::InternalServerError => "Internal server error"@,
        AppError::ValidationError(m) => m@,
    }
}

impl AppError {
    /// The error described in words, as it is logged.
    pub fn message(&self) -> (r: String)
        ensures
            *self matches AppError::NotFound ==> r@ == "Resource not found"@,
            *self matches AppError::Unauthorized ==> r@ == "Unauthorized"@,
            *self matches AppError::InternalServerError ==> r@ == "Internal server error"@,
            *self matches AppError::ValidationError(m) ==> r@ == "Validation error: "@ + m@,
    {
        match self {
            AppError::NotFound => String::from_str("Resource not found"),
            AppError::Unauthorized => String::from_str("Unauthorized"),
            AppError::InternalServerError => String::from_str("Internal server error"),
            AppError::ValidationError(m) => {
                let mut s = String::new();
                s.append("Validation error: ");
                s.append(m.as_str());
                proof {
                    assert(s@ =~= "Validation error: "@ + m@);
                }
                s
            },
        }
    }

    /// The HTTP status the error answers with.
    pub fn status_code(&self) -> (r: u16)
        ensures
            *self matches AppError::NotFound ==> r == 404,
            *self matches AppError::Unauthorized ==> r == 401,
            *self matches AppError::InternalServerError ==> r == 500,
            *self matches AppError::ValidationError(m) ==> r == 400,
    {
        match self {
            AppError::NotFound => 404,
            AppError::Unauthorized => 401,
            AppError::InternalServerError => 500,
            AppError::ValidationError(_) => 400,
        }
    }

    /// The JSON body the error answers with.
    pub fn body_json(&self) -> (r: String)
        ensures
            r@ == "{\"error\":\""@ + json_escaped(spec_response_message(*self)) + "\"}"@,
    {
        let msg = match self {
            AppError::NotFound => String::from_str("Resource not found"),
            AppError::Unauthorized => String::from_str("Unauthorized"),
            AppError::InternalServerError => String::from_str("Internal server error"),
            AppError::ValidationError(m) => m.clone(),
        };
        let mut s = String::new();
        s.append("{\"error\":\"");
        let esc = json_escape(msg.as_str());
        s.append(esc.as_str());
        s.append("\"}");
        proof {
            assert(s@ =~= "{\"error\":\""@ + json_escaped(spec_response_message(*self)) + "\"}"@);
        }
        s
    }
}

} // verus!
