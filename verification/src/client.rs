//! Defines the core `SecretClient` trait that all secret client
//! implementations must satisfy.
//!
//! The trait is the single abstraction for retrieving secrets regardless of
//! the backend (remote cached source, test double, ...). It fixes one lookup
//! policy for every implementation: each source answers from a secret
//! mapping, its keys are normalized before lookup, and a missing or
//! non-string entry fails with `SecretNotFound`.

use crate::errors::SecretsManagerError;
use vstd::prelude::*;
use vstd::string::StrSliceExecFns;

verus! {

/// The marker character: a key that begins with `!` is a key reference and
/// is stripped of exactly that one leading character before lookup.
pub open spec fn key_marker() -> char {
    '!'
}

/// The key-normalization policy applied by every backend before lookup:
/// strip one leading marker character if present; a key without the marker
/// is used unchanged.
pub open spec fn normalize_key_spec(key: Seq<char>) -> Seq<char> {
    if key.len() > 0 && key[0] == key_marker() {
        key.subrange(1, key.len() as int)
    } else {
        key
    }
}

/// A secret mapping: each key is either mapped to a plain string value
/// (`Some`) or recorded as present with a value of the wrong shape (`None`).
/// A key outside the map's domain is absent altogether.
pub type SecretMapping = Map<Seq<char>, Option<Seq<char>>>;

/// The view of a lookup result: the secret value's characters on success,
/// the error kind on failure.
pub open spec fn result_view(r: Result<String, SecretsManagerError>) -> Result<
    Seq<char>,
    SecretsManagerError,
> {
    match r {
        Ok(v) => Ok(v@),
        Err(e) => Err(e),
    }
}

/// The one lookup policy shared by all secret sources: normalize the key,
/// then answer from the mapping. A key that is absent, or present with a
/// non-string value, fails with `SecretNotFound`; a key present with a
/// string value succeeds with exactly that value.
pub open spec fn lookup_outcome(m: SecretMapping, key: Seq<char>) -> Result<
    Seq<char>,
    SecretsManagerError,
> {
    let nk = normalize_key_spec(key);
    if m.contains_key(nk) && m[nk] is Some {
        Ok(m[nk]->0)
    } else {
        Err(SecretsManagerError::SecretNotFound)
    }
}

/// Applies the key-normalization policy: strips one leading marker
/// character if present, and returns the key unchanged otherwise.
pub fn normalize_key(key: &str) -> (r: String)
    ensures
        r@ == normalize_key_spec(key@),
{
    let n: usize = key.unicode_len();
    if n > 0 && key.get_char(0) == '!' {
        key.substring_char(1, n).to_owned()
    } else {
        key.to_owned()
    }
}

/// Trait that defines the core functionality for retrieving secrets.
///
/// Implementations are substitutable: application code depends only on
/// "give me the secret for key K", never on the specific backend. Each
/// implementation exposes the secret mapping it answers from as a
/// specification-level view, and its lookups follow [`lookup_outcome`]
/// against that mapping.
pub trait SecretClient: Send + Sync {
    /// The secret mapping this source answers lookups from.
    spec fn mapping(&self) -> SecretMapping;

    /// Retrieves a secret value by its key.
    ///
    /// Returns the mapped string value for the normalized key, or
    /// `SecretsManagerError::SecretNotFound` if the normalized key is
    /// absent from the mapping or maps to a non-string value.
    fn get_by_key(&self, key: &str) -> (r: Result<String, SecretsManagerError>)
        ensures
            result_view(r) == lookup_outcome(self.mapping(), key@),
    ;
}

/// A key present in the mapping with a string value is returned as exactly
/// that value.
pub proof fn lemma_lookup_present_string(m: SecretMapping, key: Seq<char>)
    requires
        m.contains_key(normalize_key_spec(key)),
        m[normalize_key_spec(key)] is Some,
    ensures
        lookup_outcome(m, key) == Ok::<Seq<char>, SecretsManagerError>(
            m[normalize_key_spec(key)]->0,
        ),
{
}

/// A key absent from the mapping (after normalization) fails with
/// `SecretNotFound`.
pub proof fn lemma_lookup_absent(m: SecretMapping, key: Seq<char>)
    requires
        !m.contains_key(normalize_key_spec(key)),
    ensures
        lookup_outcome(m, key) == Err::<Seq<char>, SecretsManagerError>(
            SecretsManagerError::SecretNotFound,
        ),
{
}

/// A key whose mapped value is present but not a plain string fails with
/// `SecretNotFound`.
pub proof fn lemma_lookup_not_a_string(m: SecretMapping, key: Seq<char>)
    requires
        m.contains_key(normalize_key_spec(key)),
        m[normalize_key_spec(key)] is None,
    ensures
        lookup_outcome(m, key) == Err::<Seq<char>, SecretsManagerError>(
            SecretsManagerError::SecretNotFound,
        ),
{
}

/// Lookup is a pure function of the mapping and the key: any two results
/// that satisfy the lookup contract against the same mapping and the same
/// key have equal views. Repeated `get_by_key` calls on one constructed
/// instance therefore return identical results.
pub proof fn lemma_lookup_idempotent(
    m: SecretMapping,
    key: Seq<char>,
    r1: Result<String, SecretsManagerError>,
    r2: Result<String, SecretsManagerError>,
)
    requires
        result_view(r1) == lookup_outcome(m, key),
        result_view(r2) == lookup_outcome(m, key),
    ensures
        result_view(r1) == result_view(r2),
{
}

} // verus!
