use secrets_manager::aws_client::{AWSSecretClient, SecretEntry};
use secrets_manager::client::SecretClient;
use secrets_manager::errors::SecretsManagerError;

fn sample_client() -> AWSSecretClient {
    AWSSecretClient::from_entries(vec![
        SecretEntry { key: "db-pass".to_string(), value: Some("s3cr3t".to_string()) },
        SecretEntry { key: "api-key".to_string(), value: Some("k-123".to_string()) },
        SecretEntry { key: "flag".to_string(), value: None },
        SecretEntry { key: "empty".to_string(), value: Some(String::new()) },
    ])
}

#[test]
fn present_key_with_marker_returns_value() {
    let client = sample_client();
    assert_eq!(client.get_by_key("!db-pass"), Ok("s3cr3t".to_string()));
    assert_eq!(client.get_by_key("!api-key"), Ok("k-123".to_string()));
}

#[test]
fn present_key_without_marker_is_used_unchanged() {
    let client = sample_client();
    assert_eq!(client.get_by_key("db-pass"), Ok("s3cr3t".to_string()));
}

#[test]
fn present_key_with_empty_value_returns_empty_string() {
    let client = sample_client();
    assert_eq!(client.get_by_key("!empty"), Ok(String::new()));
}

#[test]
fn absent_key_fails_with_secret_not_found() {
    let client = sample_client();
    assert_eq!(
        client.get_by_key("!missing"),
        Err(SecretsManagerError::SecretNotFound)
    );
    assert_eq!(
        client.get_by_key("missing"),
        Err(SecretsManagerError::SecretNotFound)
    );
}

#[test]
fn empty_key_fails_with_secret_not_found() {
    let client = sample_client();
    assert_eq!(client.get_by_key(""), Err(SecretsManagerError::SecretNotFound));
    assert_eq!(client.get_by_key("!"), Err(SecretsManagerError::SecretNotFound));
}

#[test]
fn non_string_value_fails_with_secret_not_found() {
    let client = sample_client();
    assert_eq!(
        client.get_by_key("!flag"),
        Err(SecretsManagerError::SecretNotFound)
    );
}

#[test]
fn repeated_lookups_return_identical_results() {
    let client = sample_client();
    let first = client.get_by_key("!db-pass");
    for _ in 0..5 {
        assert_eq!(client.get_by_key("!db-pass"), first);
    }
    let miss = client.get_by_key("!missing");
    for _ in 0..5 {
        assert_eq!(client.get_by_key("!missing"), miss);
    }
}

#[test]
fn repeated_entry_key_is_answered_by_last_occurrence() {
    let client = AWSSecretClient::from_entries(vec![
        SecretEntry { key: "k".to_string(), value: Some("first".to_string()) },
        SecretEntry { key: "k".to_string(), value: Some("second".to_string()) },
    ]);
    assert_eq!(client.get_by_key("!k"), Ok("second".to_string()));
}

#[test]
fn default_client_holds_no_secrets() {
    let client = AWSSecretClient::default();
    assert_eq!(
        client.get_by_key("!db-pass"),
        Err(SecretsManagerError::SecretNotFound)
    );
}
