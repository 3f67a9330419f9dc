//! Execution backend of a code sandbox: the lifecycle of one disposable,
//! resource-capped, network-isolated container per submitted archive.
//!
//! The engine itself is driven from outside the library: the lifecycle is a
//! state machine that hands out the next engine operation and takes back its
//! outcome.

use vstd::prelude::*;

pub mod docker;
pub mod handlers;
pub mod utils;

verus! {

/// Errors surfaced to a client of the sandbox service.
#[derive(Clone, Copy, Debug, PartialEq, Eq, Structural)]
pub enum AppError {
    DecodeError,
    InternalServerError,
    Unauthorized,
    BadRequest,
    NotFound,
    InvalidBase64,
    Unknown,
}

/// The HTTP status code under which each error is reported.
pub open spec fn status_of(e: AppError) -> u16 {
    match e {
        AppError::DecodeError => 502,
        AppError::InternalServerError => 500,
        AppError::Unauthorized => 401,
        AppError::BadRequest => 400,
        AppError::InvalidBase64 => 400,
        AppError::NotFound => 404,
        AppError::Unknown => 500,
    }
}

impl AppError {
    /// The HTTP status code of this error.
    pub fn status_code(&self) -> (r: u16)
        ensures
            r == status_of(*self),
    {
        match *self {
            AppError::DecodeError => 502,
            AppError::InternalServerError => 500,
            AppError::Unauthorized => 401,
            AppError::BadRequest => 400,
            AppError::InvalidBase64 => 400,
            AppError::NotFound => 404,
            AppError::Unknown => 500,
        }
    }
}

} // verus!
