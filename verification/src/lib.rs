//! # Secrets Manager
//!
//! A library for retrieving named secrets from a remote secret store,
//! caching them in process memory after one bulk fetch, and answering
//! lookups through a uniform, backend-independent interface.
//!
//! The library is organised around three pieces:
//!
//! - [`errors::SecretsManagerError`], the closed set of failure kinds;
//! - [`SecretClient`](client::SecretClient), the contract every secret
//!   source satisfies;
//! - [`AWSSecretClient`](aws_client::AWSSecretClient) together with
//!   [`AWSSecretClientBuilder`](aws_client_builder::AWSSecretClientBuilder),
//!   the cached remote source and the one-shot fetch-then-cache builder,
//!   plus [`FakeSecretClient`](fake_client::FakeSecretClient), an
//!   always-empty test double.

pub mod aws_client;
pub mod aws_client_builder;
pub mod client;
pub mod errors;
pub mod fake_client;
