//! The service's error type and how each kind is answered over HTTP.
use vstd::prelude::*;
use crate::json::{json_object_of_strings, json_object_text};

verus! {

/// Errors that the service reports to its callers.
#[derive(Debug, Clone, PartialEq, Eq)]
pub enum AppError {
    NotFound(String),
    BadRequest(String),
    UnprocessableEntity(String),
    Internal(String),
    Conflict(String),
}

impl AppError {
    /// The message that the error carries.
    pub open spec fn message_view(&self) -> Seq<char> {
        match self {
            AppError::NotFound(m) => m@,
            AppError::BadRequest(m) => m@,
            AppError::UnprocessableEntity(m) => m@,
            AppError::Internal(m) => m@,
            AppError::Conflict(m) => m@,
        }
    }

    /// The HTTP status with which the error is answered.
    pub open spec fn spec_status_code(&self) -> u16 {
        match self {
            AppError::NotFound(_) => 404,
            AppError::BadRequest(_) => 400,
            AppError::UnprocessableEntity(_) => 422,
            AppError::Internal(_) => 500,
            AppError::Conflict(_) => 409,
        }
    }

    /// The words in front of the message when the error is shown as text.
    pub open spec fn label(&self) -> Seq<char> {
        match self {
            AppError::NotFound(_) => "Not found: "@,
            AppError::BadRequest(_) => "Bad request: "@,
            AppError::UnprocessableEntity(_) => "Unprocessable entity: "@,
            AppError::Internal(_) => "Internal error: "@,
            AppError::Conflict(_) => "Conflict: "@,
        }
    }

    /// The message that the error carries.
    pub fn message(&self) -> (m: &String)
        ensures
            m@ == self.message_view(),
    {
        match self {
            AppError::NotFound(m) => m,
            AppError::BadRequest(m) => m,
            AppError::UnprocessableEntity(m) => m,
            AppError::Internal(m) => m,
            AppError::Conflict(m) => m,
        }
    }

    /// The HTTP status with which the error is answered.
    pub fn status_code(&self) -> (code: u16)
        ensures
            code == self.spec_status_code(),
    {
        match self {
            AppError::NotFound(_) => 404,
            AppError::BadRequest(_) => 400,
            AppError::UnprocessableEntity(_) => 422,
            AppError::Internal(_) => 500,
            AppError::Conflict(_) => 409,
        }
    }

    /// The error as one line of text, such as `Not found: task T-1 not found`.
    pub fn to_text(&self) -> (t: String)
        ensures
            t@ == self.label() + self.message_view(),
    {
        let label = match self {
            AppError::NotFound(_) => "Not found: ",
            AppError::BadRequest(_) => "Bad request: ",
            AppError::UnprocessableEntity(_) => "Unprocessable entity: ",
            AppError::Internal(_) => "Internal error: ",
            AppError::Conflict(_) => "Conflict: ",
        };
        let mut t = String::from_str(label);
        t.append(self.message().as_str());
        t
    }

    /// The JSON body of the error's HTTP answer: an object whose one member
    /// `error` holds the message.
    pub fn response_body(&self) -> (body: String)
        ensures
            body@ == json_object_text(seq![("error"@, self.message_view())]),
    {
        let mut fields: Vec<(String, String)> = Vec::new();
        fields.push((String::from_str("error"), self.message().clone()));
        assert(crate::json::field_views(fields@) =~= seq![("error"@, self.message_view())]);
        json_object_of_strings(&fields)
    }
}

} // verus!
