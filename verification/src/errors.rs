//! Error types for the secrets manager library.
//!
//! This module defines the closed set of failure kinds that can occur when
//! working with secrets and a remote secret store.

use vstd::prelude::*;

verus! {

/// Represents errors that can occur during secret management operations.
///
/// The four kinds are disjoint and terminal: no failure is retried
/// internally, and every failure path surfaces exactly one of them.
#[derive(Clone, Copy, Debug, PartialEq, Eq, Structural)]
pub enum SecretsManagerError {
    /// A local processing step failed unexpectedly (for example, a payload
    /// could not be decoded into the expected mapping shape).
    InternalError,
    /// The network or service call to the remote secret store failed.
    RequestFailure,
    /// The requested key is absent from the local cached mapping, or maps
    /// to a value that is not a plain string.
    SecretNotFound,
    /// The remote service responded, but the expected secret payload was
    /// absent.
    AwsSecretWasNotFound,
}

impl SecretsManagerError {
    /// The diagnostic text for each error kind.
    pub open spec fn message_spec(&self) -> Seq<char> {
        match self {
            SecretsManagerError::InternalError => "internal error"@,
            SecretsManagerError::RequestFailure => "failure to send request"@,
            SecretsManagerError::SecretNotFound => "secret not found"@,
            SecretsManagerError::AwsSecretWasNotFound => "aws secret was not found"@,
        }
    }

    /// A short human-readable description of the error.
    pub fn message(&self) -> (r: String)
        ensures
            r@ == self.message_spec(),
    {
        match self {
            SecretsManagerError::InternalError => "internal error".to_owned(),
            SecretsManagerError::RequestFailure => "failure to send request".to_owned(),
            SecretsManagerError::SecretNotFound => "secret not found".to_owned(),
            SecretsManagerError::AwsSecretWasNotFound => "aws secret was not found".to_owned(),
        }
    }
}

} // verus!
