//! The failures an engine operation can report.

use vstd::prelude::*;

verus! {

/// Why an operation was refused. Every failure names one of these kinds;
/// [`EngineError::message`] gives the text that goes with it.
#[derive(Debug, PartialEq, Eq)]
pub enum EngineError {
    /// The entity an operation was asked to act on is absent.
    NotFound,
    /// A row refers to an entity that is absent.
    InvalidReference,
    /// A uniqueness rule would be broken.
    Conflict,
    /// An outside collaborator failed; the text is its own account.
    UpstreamError(String),
    /// An identifier given as text is not a UUID.
    MalformedIdentifier,
}

/// The kind of an [`EngineError`], without its text.
#[derive(Clone, Copy, Debug, PartialEq, Eq, Structural)]
pub enum ErrorKind {
    NotFound,
    InvalidReference,
    Conflict,
    UpstreamError,
    MalformedIdentifier,
}

/// How a relational store reports that a statement was refused.
#[derive(Clone, Copy, Debug, PartialEq, Eq, Structural)]
pub enum StoreFailure {
    /// A statement that must yield one row yielded none.
    RowNotFound,
    /// A foreign key names a row that does not exist.
    ForeignKeyViolation,
    /// A primary key or unique constraint would hold a value twice.
    UniqueViolation,
}

impl Clone for EngineError {
    fn clone(&self) -> (copy: Self)
        ensures
            copy == *self,
    {
        match self {
            EngineError::NotFound => EngineError::NotFound,
            EngineError::InvalidReference => EngineError::InvalidReference,
            EngineError::Conflict => EngineError::Conflict,
            EngineError::UpstreamError(account) => EngineError::UpstreamError(account.clone()),
            EngineError::MalformedIdentifier => EngineError::MalformedIdentifier,
        }
    }
}

impl EngineError {
    /// The kind of this error.
    pub open spec fn kind_of(self) -> ErrorKind {
        match self {
            EngineError::NotFound => ErrorKind::NotFound,
            EngineError::InvalidReference => ErrorKind::InvalidReference,
            EngineError::Conflict => ErrorKind::Conflict,
            EngineError::UpstreamError(_) => ErrorKind::UpstreamError,
            EngineError::MalformedIdentifier => ErrorKind::MalformedIdentifier,
        }
    }

    /// The text of this error: fixed for each kind, and the collaborator's
    /// own account for an upstream failure.
    pub open spec fn text(self) -> Seq<char> {
        match self {
            EngineError::NotFound => "entity not found"@,
            EngineError::InvalidReference => "referenced entity does not exist"@,
            EngineError::Conflict => "uniqueness constraint violated"@,
            EngineError::UpstreamError(account) => account@,
            EngineError::MalformedIdentifier => "identifier is not a valid UUID"@,
        }
    }

    /// The kind of this error.
    pub fn kind(&self) -> (k: ErrorKind)
        ensures
            k == self.kind_of(),
    {
        match self {
            EngineError::NotFound => ErrorKind::NotFound,
            EngineError::InvalidReference => ErrorKind::InvalidReference,
            EngineError::Conflict => ErrorKind::Conflict,
            EngineError::UpstreamError(_) => ErrorKind::UpstreamError,
            EngineError::MalformedIdentifier => ErrorKind::MalformedIdentifier,
        }
    }

    /// The text of this error.
    pub fn message(&self) -> (m: String)
        ensures
            m@ == self.text(),
    {
        match self {
            EngineError::NotFound => "entity not found".to_owned(),
            EngineError::InvalidReference => "referenced entity does not exist".to_owned(),
            EngineError::Conflict => "uniqueness constraint violated".to_owned(),
            EngineError::UpstreamError(account) => account.clone(),
            EngineError::MalformedIdentifier => "identifier is not a valid UUID".to_owned(),
        }
    }

    /// The engine's name for a failure that the store reported.
    pub fn from_store(failure: StoreFailure) -> (e: EngineError)
        ensures
            e == EngineError::of_store(failure),
    {
        match failure {
            StoreFailure::RowNotFound => EngineError::NotFound,
            StoreFailure::ForeignKeyViolation => EngineError::InvalidReference,
            StoreFailure::UniqueViolation => EngineError::Conflict,
        }
    }

    /// The engine's name for a failure that the store reported.
    pub open spec fn of_store(failure: StoreFailure) -> EngineError {
        match failure {
            StoreFailure::RowNotFound => EngineError::NotFound,
            StoreFailure::ForeignKeyViolation => EngineError::InvalidReference,
            StoreFailure::UniqueViolation => EngineError::Conflict,
        }
    }
}

} // verus!
