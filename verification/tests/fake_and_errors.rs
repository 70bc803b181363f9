use secrets_manager::client::SecretClient;
use secrets_manager::errors::SecretsManagerError;
use secrets_manager::fake_client::FakeSecretClient;

#[test]
fn fake_client_returns_empty_string_for_any_key() {
    let client = FakeSecretClient::new();
    assert_eq!(client.get_by_key("db-pass"), Ok(String::new()));
    assert_eq!(client.get_by_key("!db-pass"), Ok(String::new()));
    assert_eq!(client.get_by_key(""), Ok(String::new()));
    assert_eq!(client.get_by_key("!"), Ok(String::new()));
    assert_eq!(client.get_by_key("!!weird!key!"), Ok(String::new()));
}

#[test]
fn default_fake_client_behaves_like_new() {
    let client = FakeSecretClient::default();
    assert_eq!(client.get_by_key("anything"), Ok(String::new()));
}

#[test]
fn error_kinds_are_disjoint_and_comparable() {
    let kinds = [
        SecretsManagerError::InternalError,
        SecretsManagerError::RequestFailure,
        SecretsManagerError::SecretNotFound,
        SecretsManagerError::AwsSecretWasNotFound,
    ];
    for (i, a) in kinds.iter().enumerate() {
        for (j, b) in kinds.iter().enumerate() {
            assert_eq!(a == b, i == j);
        }
    }
}

#[test]
fn error_messages_are_exact() {
    assert_eq!(SecretsManagerError::InternalError.message(), "internal error");
    assert_eq!(
        SecretsManagerError::RequestFailure.message(),
        "failure to send request"
    );
    assert_eq!(SecretsManagerError::SecretNotFound.message(), "secret not found");
    assert_eq!(
        SecretsManagerError::AwsSecretWasNotFound.message(),
        "aws secret was not found"
    );
}
