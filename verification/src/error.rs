//! Errors of the use cases.

use vstd::prelude::*;

verus! {

/// A request that the rules refuse.
#[derive(Clone, Debug, PartialEq, Eq)]
pub enum ParameterError {
    Bbox,
    Email,
    Password,
    UserName,
    Url,
    License,
    UserExists,
    Forbidden,
    EmailNotConfirmed,
    Credentials,
    EmptyComment,
    RatingValue,
}

/// A failure reported by the repository, or raised on its behalf.
#[derive(Debug, PartialEq, Eq)]
pub enum RepoError {
    /// The record asked for does not exist.
    NotFound,
    /// An update does not carry the version that follows the stored one.
    InvalidVersion,
    /// A failure of the storage backend, described by the backend.
    Backend(String),
    /// A repository failure passed on by a use case.
    Other(Box<RepoError>),
}

/// A failure of the password hashing library.
#[derive(Clone, Debug, PartialEq, Eq)]
pub enum PwhashError {
    RandomError(String),
    EncodingError,
    InsufficientLength,
    InvalidRounds,
    InvalidHashString,
}

/// The error of a use case.
#[derive(Debug, PartialEq, Eq)]
pub enum Error {
    Parameter(ParameterError),
    Repo(RepoError),
    Pwhash(PwhashError),
}

} // verus!
