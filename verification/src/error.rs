//! The errors of the store, of the service and of the application.

use crate::response::{error_response, is_error_envelope, ApiResponse};
use vstd::prelude::*;

verus! {

/// What the identity store can report.
#[derive(Debug, PartialEq, Eq)]
pub enum RepositoryError {
    Database(String),
    NotFound,
    AlreadyExists,
    Internal(String),
}

/// What the user service can report.
#[derive(Debug, PartialEq, Eq)]
pub enum ServiceError {
    NotFound,
    AlreadyExists,
    Validation(String),
    Internal(String),
}

/// What a bare user table can report.
#[derive(Debug, PartialEq, Eq)]
pub enum DatabaseError {
    NotFound,
    Validation(String),
    AlreadyExists,
}

/// What the application reports to a client.
#[derive(Debug, PartialEq, Eq)]
pub enum AppError {
    NotFound,
    Internal(String),
    BadRequest(String),
    ValidationError(String),
}

/// Mathematical value of a [`ServiceError`].
pub enum ServiceErrorView {
    NotFound,
    AlreadyExists,
    Validation(Seq<char>),
    Internal(Seq<char>),
}

/// Mathematical value of a [`RepositoryError`].
pub enum RepositoryErrorView {
    Database(Seq<char>),
    NotFound,
    AlreadyExists,
    Internal(Seq<char>),
}

/// Mathematical value of an [`AppError`].
pub enum AppErrorView {
    NotFound,
    Internal(Seq<char>),
    BadRequest(Seq<char>),
    ValidationError(Seq<char>),
}

impl View for ServiceError {
    type V = ServiceErrorView;

    open spec fn view(&self) -> ServiceErrorView {
        match *self {
            ServiceError::NotFound => ServiceErrorView::NotFound,
            ServiceError::AlreadyExists => ServiceErrorView::AlreadyExists,
            ServiceError::Validation(details) => ServiceErrorView::Validation(details@),
            ServiceError::Internal(cause) => ServiceErrorView::Internal(cause@),
        }
    }
}

impl View for RepositoryError {
    type V = RepositoryErrorView;

    open spec fn view(&self) -> RepositoryErrorView {
        match *self {
            RepositoryError::Database(cause) => RepositoryErrorView::Database(cause@),
            RepositoryError::NotFound => RepositoryErrorView::NotFound,
            RepositoryError::AlreadyExists => RepositoryErrorView::AlreadyExists,
            RepositoryError::Internal(cause) => RepositoryErrorView::Internal(cause@),
        }
    }
}

impl View for AppError {
    type V = AppErrorView;

    open spec fn view(&self) -> AppErrorView {
        match *self {
            AppError::NotFound => AppErrorView::NotFound,
            AppError::Internal(cause) => AppErrorView::Internal(cause@),
            AppError::BadRequest(message) => AppErrorView::BadRequest(message@),
            AppError::ValidationError(message) => AppErrorView::ValidationError(message@),
        }
    }
}

/// The service error that stands for a store error, one for one.
pub open spec fn service_error_of(error: RepositoryErrorView) -> ServiceErrorView {
    match error {
        RepositoryErrorView::Database(cause) => ServiceErrorView::Internal(cause),
        RepositoryErrorView::NotFound => ServiceErrorView::NotFound,
        RepositoryErrorView::AlreadyExists => ServiceErrorView::AlreadyExists,
        RepositoryErrorView::Internal(cause) => ServiceErrorView::Internal(cause),
    }
}

/// The application error that stands for a store error.
pub open spec fn app_error_of(error: RepositoryErrorView) -> AppErrorView {
    match error {
        RepositoryErrorView::NotFound => AppErrorView::NotFound,
        RepositoryErrorView::AlreadyExists => AppErrorView::BadRequest("User already exists"@),
        RepositoryErrorView::Database(cause) => AppErrorView::Internal(cause),
        RepositoryErrorView::Internal(cause) => AppErrorView::Internal(cause),
    }
}

/// The HTTP status that goes with an application error: 404 for what is
/// not there, 500 for a fault, 400 for a bad request and for a failed
/// validation.
pub open spec fn app_error_status(error: AppErrorView) -> u16 {
    match error {
        AppErrorView::NotFound => 404,
        AppErrorView::Internal(_) => 500,
        AppErrorView::BadRequest(_) => 400,
        AppErrorView::ValidationError(_) => 400,
    }
}

/// The code under which an application error is reported.
pub open spec fn app_error_code(error: AppErrorView) -> Seq<char> {
    match error {
        AppErrorView::NotFound => "NOT_FOUND"@,
        AppErrorView::Internal(_) => "INTERNAL_ERROR"@,
        AppErrorView::BadRequest(_) => "BAD_REQUEST"@,
        AppErrorView::ValidationError(_) => "VALIDATION_ERROR"@,
    }
}

/// The text that an application error shows to the client.
pub open spec fn app_error_text(error: AppErrorView) -> Seq<char> {
    match error {
        AppErrorView::NotFound => "Not found"@,
        AppErrorView::Internal(cause) => cause,
        AppErrorView::BadRequest(message) => message,
        AppErrorView::ValidationError(message) => message,
    }
}

impl ServiceError {
    /// The service error that stands for a store error.
    pub fn from_repository(error: RepositoryError) -> (res: Self)
        ensures
            res@ == service_error_of(error@),
    {
        match error {
            RepositoryError::Database(cause) => ServiceError::Internal(cause),
            RepositoryError::NotFound => ServiceError::NotFound,
            RepositoryError::AlreadyExists => ServiceError::AlreadyExists,
            RepositoryError::Internal(cause) => ServiceError::Internal(cause),
        }
    }
}

impl AppError {
    /// The application error that stands for a store error.
    pub fn from_repository(error: RepositoryError) -> (res: Self)
        ensures
            res@ == app_error_of(error@),
    {
        match error {
            RepositoryError::NotFound => AppError::NotFound,
            RepositoryError::AlreadyExists => AppError::BadRequest("User already exists".to_owned()),
            RepositoryError::Database(cause) => AppError::Internal(cause),
            RepositoryError::Internal(cause) => AppError::Internal(cause),
        }
    }

    /// The answer that reports this error: its status, and the failure
    /// envelope with its code and its text.
    pub fn into_response(self) -> (res: (u16, ApiResponse<()>))
        ensures
            res.0 == app_error_status(self@),
            is_error_envelope(res.1, app_error_code(self@), app_error_text(self@)),
    {
        match self {
            AppError::NotFound => error_response(404, "NOT_FOUND", "Not found"),
            AppError::Internal(cause) => error_response(500, "INTERNAL_ERROR", cause.as_str()),
            AppError::BadRequest(message) => error_response(400, "BAD_REQUEST", message.as_str()),
            AppError::ValidationError(message) => error_response(
                400,
                "VALIDATION_ERROR",
                message.as_str(),
            ),
        }
    }
}

} // verus!
