//! The unified error taxonomy: every failure from the credential source or
//! the transport is surfaced to the caller wrapped in [`Error`], never
//! retried or suppressed.

use vstd::prelude::*;
use crate::drive::client::GoogleDriveError;
use crate::storage::client::CloudStorageError;

verus! {

/// The main error-handling type.  Failures that originate outside the
/// library (transport, remote status, environment) carry the offending
/// layer's message; failures with library-level structure carry the typed
/// error of that layer.
#[derive(Debug, PartialEq, Eq)]
pub enum Error {
    /// An unexpected status code was received from a gRPC call.
    Status(String),
    /// An error with the gRPC transport channel.
    Transport(String),
    /// An error with a gRPC metadata value.
    InvalidMetadata(String),
    /// An IO error.
    IO(String),
    /// An environment-related error (missing variable).
    Env(String),
    /// An HTTP-layer error.
    Reqwest(String),
    /// A value-conversion error.
    Convert(ConvertError),
    /// An authentication-related error.
    Auth(AuthError),
    /// A URL-construction or URL-parse error.
    Url(String),
    /// A Cloud Storage API error.
    CloudStorage(CloudStorageError),
    /// A Google Drive API error.
    GooleDrive(GoogleDriveError),
    /// A header value that was expected to be a string was not one.
    HeaderValueIsNotString(String),
}

/// The error type for value conversions.
#[derive(Debug, PartialEq, Eq)]
pub enum ConvertError {
    /// An expected property was missing.
    MissingProperty(String),
    /// A value, expected to be an entity, turned out to not be one.
    UnexpectedPropertyType {
        /// The name of the expected type.
        expected: String,
        /// The name of the actual encountered type.
        got: String,
    },
}

/// The error type for authentication-related errors: the credential source
/// could not produce a token.
#[derive(Debug, PartialEq, Eq)]
pub enum AuthError {
    /// A failure reported by the credential source, with its message.
    GcpAuth(String),
}

} // verus!
