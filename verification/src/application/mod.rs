//! Use cases: commands and queries with their handlers, application services and policies.
pub mod commands;
pub mod policies;
pub mod queries;
pub mod services;

use vstd::prelude::*;
use crate::errors::DomainError;

verus! {

#[verifier::external_type_specification]
#[verifier::external_body]
pub struct ExIoError(std::io::Error);

/// Application layer errors.
#[derive(Debug)]
pub enum AppError {
    Domain(DomainError),
    BackendNotAvailable(String),
    CollectionInProgress,
    Configuration(String),
    Io(std::io::Error),
}

impl From<DomainError> for AppError {
    fn from(e: DomainError) -> (r: AppError) {
        AppError::Domain(e)
    }
}

impl vstd::std_specs::convert::FromSpecImpl<DomainError> for AppError {
    open spec fn obeys_from_spec() -> bool {
        true
    }

    open spec fn from_spec(v: DomainError) -> AppError {
        AppError::Domain(v)
    }
}

pub type AppResult<T> = Result<T, AppError>;

} // verus!
