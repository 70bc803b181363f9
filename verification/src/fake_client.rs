//! Fake secret client implementation for testing and development.
//!
//! This module provides a `FakeSecretClient` that implements the
//! `SecretClient` trait but returns empty strings instead of actual
//! secrets. Useful for testing and development environments.

use crate::client::{SecretClient, SecretMapping, lookup_outcome};
use crate::errors::SecretsManagerError;
use vstd::prelude::*;

verus! {

/// The mapping the always-empty test double answers from: every key is
/// present and mapped to the empty string.
pub open spec fn empty_secret_mapping() -> SecretMapping {
    Map::total(|key: Seq<char>| Some(Seq::<char>::empty()))
}

/// A fake implementation of the `SecretClient` trait for testing.
///
/// This client always returns an empty string for any secret key, making
/// it useful for tests and development environments where actual secrets
/// are not required or available.
pub struct FakeSecretClient;

impl SecretClient for FakeSecretClient {
    open spec fn mapping(&self) -> SecretMapping {
        empty_secret_mapping()
    }

    /// Always returns an empty string for any key; it never fails.
    fn get_by_key(&self, _key: &str) -> (r: Result<String, SecretsManagerError>) {
        Ok(String::new())
    }
}

impl FakeSecretClient {
    /// Creates a new `FakeSecretClient` instance.
    pub fn new() -> (r: FakeSecretClient)
        ensures
            r.mapping() == empty_secret_mapping(),
    {
        FakeSecretClient {  }
    }
}

impl Default for FakeSecretClient {
    /// The default instance is the same zero-configuration double.
    fn default() -> (r: FakeSecretClient)
        ensures
            r.mapping() == empty_secret_mapping(),
    {
        FakeSecretClient {  }
    }
}

/// The always-empty test double: for every key, including the empty string
/// and keys containing the marker character, lookup succeeds with the
/// empty string and never fails.
pub proof fn lemma_fake_always_empty(key: Seq<char>)
    ensures
        lookup_outcome(empty_secret_mapping(), key) == Ok::<Seq<char>, SecretsManagerError>(
            Seq::<char>::empty(),
        ),
{
}

} // verus!
