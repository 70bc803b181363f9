//! AWS Secret client builder module.
//!
//! This module provides the `AWSSecretClientBuilder` for constructing
//! instances of `AWSSecretClient`. The builder owns the one-shot
//! fetch-then-cache sequence: the caller performs the single remote fetch
//! for the configured secret identifier and hands the outcome to
//! [`AWSSecretClientBuilder::build`], which validates the payload, parses
//! it as a flat key-to-value object, and produces the cached client.

use crate::aws_client::{AWSSecretClient, SecretEntry, entries_view, map_of_entries};
use crate::client::{SecretClient, SecretMapping};
use crate::errors::SecretsManagerError;
use vstd::prelude::*;

verus! {

/// The outcome of the single remote retrieval request, as plain values:
/// the secret payload string, an explicit "no payload" answer from the
/// service, or a transport-level failure.
pub enum FetchOutcome {
    /// The service answered with a secret payload string.
    Payload(String),
    /// The service answered, but the secret payload field was absent.
    Absent,
    /// The network or service call itself failed.
    TransportFailure,
}

/// The flat key-to-value object that the JSON parser extracts from a
/// payload text, if the text holds one: `None` when the text is not
/// parseable as such an object, and otherwise the mapping it denotes,
/// with each key mapped to its string value, or to `None` for a value
/// of a non-string shape. The outcome depends on the text alone.
pub uninterp spec fn json_flat_object_of(payload: Seq<char>) -> Option<SecretMapping>;

/// Relies on serde_json::from_str with serde_json::Map as the target
/// type: whether the text parses as a flat JSON object, and the entries
/// extracted from it, are a function of the text alone. A repeated key
/// is kept at its last occurrence, as the parser's insertion order gives.
#[verifier::external_body]
fn parse_flat_object(payload: &str) -> (r: Option<Vec<SecretEntry>>)
    ensures
        r is Some <==> json_flat_object_of(payload@) is Some,
        r matches Some(entries) ==> Some(map_of_entries(entries_view(entries@)))
            == json_flat_object_of(payload@),
{
    match serde_json::from_str::<serde_json::Map<String, serde_json::Value>>(payload) {
        Ok(object) => Some(object.into_iter().map(|(key, value)| SecretEntry {
            key,
            value: match value {
                serde_json::Value::String(s) => Some(s),
                _ => None,
            },
        }).collect()),
        Err(_) => None,
    }
}

/// Builder for AWS Secret Client instances.
///
/// The builder is parameterized by the single secret identifier under
/// which the remote store groups a batch of key/value secrets. It
/// converts the outcome of the one-time remote fetch into either a ready
/// cached client or one of the error kinds.
pub struct AWSSecretClientBuilder {
    /// The identifier of the secret to retrieve from AWS Secrets Manager.
    secret_key: String,
}

impl AWSSecretClientBuilder {
    /// The configured secret identifier.
    pub closed spec fn secret_key_view(&self) -> Seq<char> {
        self.secret_key@
    }

    /// Creates a new builder with the specified secret identifier.
    pub fn new(secret_key: String) -> (r: AWSSecretClientBuilder)
        ensures
            r.secret_key_view() == secret_key@,
    {
        AWSSecretClientBuilder { secret_key }
    }

    /// Returns the secret ID to be used in remote retrieval calls.
    pub fn secret_id(&self) -> (r: String)
        ensures
            r@ == self.secret_key_view(),
    {
        self.secret_key.clone()
    }

    /// Builds an `AWSSecretClient` from the outcome of the remote fetch.
    ///
    /// A transport failure becomes `RequestFailure`; an answer without a
    /// payload becomes `AwsSecretWasNotFound`; a payload that does not
    /// parse as a flat key-to-value object becomes `InternalError`. Only
    /// a parseable payload produces a usable client, and that client
    /// answers lookups from exactly the parsed mapping.
    pub fn build(&self, outcome: FetchOutcome) -> (r: Result<
        AWSSecretClient,
        SecretsManagerError,
    >)
        ensures
            match outcome {
                FetchOutcome::TransportFailure => r matches Err(e) && e
                    == SecretsManagerError::RequestFailure,
                FetchOutcome::Absent => r matches Err(e) && e
                    == SecretsManagerError::AwsSecretWasNotFound,
                FetchOutcome::Payload(payload) => match json_flat_object_of(payload@) {
                    Some(m) => r matches Ok(client) && client.mapping() == m,
                    None => r matches Err(e) && e == SecretsManagerError::InternalError,
                },
            },
    {
        match outcome {
            FetchOutcome::TransportFailure => Err(SecretsManagerError::RequestFailure),
            FetchOutcome::Absent => Err(SecretsManagerError::AwsSecretWasNotFound),
            FetchOutcome::Payload(payload) => match parse_flat_object(payload.as_str()) {
                None => Err(SecretsManagerError::InternalError),
                Some(entries) => Ok(AWSSecretClient::from_entries(entries)),
            },
        }
    }
}

impl Default for AWSSecretClientBuilder {
    /// The default builder is configured with the empty secret identifier.
    fn default() -> (r: AWSSecretClientBuilder)
        ensures
            r.secret_key_view() == Seq::<char>::empty(),
    {
        AWSSecretClientBuilder { secret_key: String::new() }
    }
}

} // verus!
