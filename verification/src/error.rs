use vstd::prelude::*;
use vstd::string::StringExecFns;

use crate::response::ErrorResponse;
use crate::validate::{spec_error_line, ErrView, ValidationError, format_errors};

verus! {

/// Mathematical shape of an error kind: payloads reduced to sequences.
pub ghost enum AppErrorView {
    ValidationFailed(Seq<ErrView>),
    MalformedInput,
    Unauthorized,
    InvalidCredentials,
    DuplicatedUser,
    DuplicatedArticle,
    NotFound(Seq<char>),
    BadRequest(Seq<char>),
    Internal,
}

impl AppErrorView {
    /// The fixed HTTP status of each kind.
    pub open spec fn status(self) -> u16 {
        match self {
            AppErrorView::ValidationFailed(_) => 400,
            AppErrorView::MalformedInput => 400,
            AppErrorView::Unauthorized => 401,
            AppErrorView::InvalidCredentials => 400,
            AppErrorView::DuplicatedUser => 400,
            AppErrorView::DuplicatedArticle => 400,
            AppErrorView::NotFound(_) => 404,
            AppErrorView::BadRequest(_) => 400,
            AppErrorView::Internal => 500,
        }
    }

    /// The fixed rendered message of each kind. An internal failure is always
    /// flattened to the same literal: its real cause was logged at the point
    /// of translation and never leaves the process.
    pub open spec fn message(self) -> Seq<char> {
        match self {
            AppErrorView::ValidationFailed(_) => "Input validation error"@,
            AppErrorView::MalformedInput => "Malformed input"@,
            AppErrorView::Unauthorized => "Unauthorized"@,
            AppErrorView::InvalidCredentials => "Invalid login or password"@,
            AppErrorView::DuplicatedUser => "User with given username or email already exists"@,
            AppErrorView::DuplicatedArticle => "Article with given title already exists"@,
            AppErrorView::NotFound(m) => m,
            AppErrorView::BadRequest(m) => m,
            AppErrorView::Internal => "Internal Server Error"@,
        }
    }

    /// Well-formedness: a validation failure is never an empty list, and a
    /// caller-supplied message is never empty.
    pub open spec fn wf(self) -> bool {
        match self {
            AppErrorView::ValidationFailed(v) => v.len() > 0,
            AppErrorView::NotFound(m) => m.len() > 0,
            AppErrorView::BadRequest(m) => m.len() > 0,
            _ => true,
        }
    }
}

/// Closed error taxonomy: every failure leaving the request pipeline is one
/// of these kinds, each with a fixed HTTP status and a stable JSON rendering.
#[derive(Debug)]
pub enum AppError {
    /// A decoded payload broke one or more of its field rules; every failure
    /// is carried, in field-declaration order.
    ValidationFailed(Vec<ValidationError>),
    /// The raw body or query string could not be decoded into its typed shape.
    MalformedInput,
    Unauthorized,
    InvalidCredentials,
    DuplicatedUser,
    DuplicatedArticle,
    NotFound(String),
    BadRequest(String),
    /// An opaque internal failure; its cause was logged once at translation.
    Internal,
}

impl View for AppError {
    type V = AppErrorView;

    open spec fn view(&self) -> AppErrorView {
        match self {
            AppError::ValidationFailed(v) => AppErrorView::ValidationFailed(v.deep_view()),
            AppError::MalformedInput => AppErrorView::MalformedInput,
            AppError::Unauthorized => AppErrorView::Unauthorized,
            AppError::InvalidCredentials => AppErrorView::InvalidCredentials,
            AppError::DuplicatedUser => AppErrorView::DuplicatedUser,
            AppError::DuplicatedArticle => AppErrorView::DuplicatedArticle,
            AppError::NotFound(m) => AppErrorView::NotFound(m@),
            AppError::BadRequest(m) => AppErrorView::BadRequest(m@),
            AppError::Internal => AppErrorView::Internal,
        }
    }
}

impl AppError {
    /// The HTTP status paired with this kind, from the fixed table.
    pub fn status_code(&self) -> (r: u16)
        ensures
            r == self@.status(),
    {
        match self {
            AppError::ValidationFailed(_) => 400,
            AppError::MalformedInput => 400,
            AppError::Unauthorized => 401,
            AppError::InvalidCredentials => 400,
            AppError::DuplicatedUser => 400,
            AppError::DuplicatedArticle => 400,
            AppError::NotFound(_) => 404,
            AppError::BadRequest(_) => 400,
            AppError::Internal => 500,
        }
    }

    /// The single rendering rule: the fixed status, the fixed message, and a
    /// data list only for a validation failure (one `"field: text"` line per
    /// collected failure, in order). Rendering never logs: an internal cause
    /// was logged once where it was translated.
    pub fn render(self) -> (r: (u16, ErrorResponse<Vec<String>>))
        requires
            self@.wf(),
        ensures
            r.0 == self@.status(),
            r.1.message@ == self@.message(),
            match self@ {
                AppErrorView::ValidationFailed(v) => {
                    &&& r.1.data matches Some(d)
                    &&& d.deep_view().len() == v.len()
                    &&& forall|i: int|
                        0 <= i < v.len() ==> d.deep_view()[i] == spec_error_line(v[i])
                },
                _ => r.1.data is None,
            },
            r.1.wf(),
    {
        proof {
            reveal_strlit("Input validation error");
            reveal_strlit("Malformed input");
            reveal_strlit("Unauthorized");
            reveal_strlit("Invalid login or password");
            reveal_strlit("User with given username or email already exists");
            reveal_strlit("Article with given title already exists");
            reveal_strlit("Internal Server Error");
        }
        let status = self.status_code();
        match self {
            AppError::ValidationFailed(v) => {
                let lines = format_errors(&v);
                (status, ErrorResponse::with_data(String::from_str("Input validation error"), lines))
            },
            AppError::MalformedInput => {
                (status, ErrorResponse::message(String::from_str("Malformed input")))
            },
            AppError::Unauthorized => {
                (status, ErrorResponse::message(String::from_str("Unauthorized")))
            },
            AppError::InvalidCredentials => {
                (status, ErrorResponse::message(String::from_str("Invalid login or password")))
            },
            AppError::DuplicatedUser => {
                (
                    status,
                    ErrorResponse::message(
                        String::from_str("User with given username or email already exists"),
                    ),
                )
            },
            AppError::DuplicatedArticle => {
                (
                    status,
                    ErrorResponse::message(
                        String::from_str("Article with given title already exists"),
                    ),
                )
            },
            AppError::NotFound(m) => (status, ErrorResponse::message(m)),
            AppError::BadRequest(m) => (status, ErrorResponse::message(m)),
            AppError::Internal => {
                (status, ErrorResponse::message(String::from_str("Internal Server Error")))
            },
        }
    }
}

} // verus!
