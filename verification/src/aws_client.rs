//! AWS Secrets Manager client implementation.
//!
//! This module provides the `AWSSecretClient` which implements the
//! `SecretClient` trait for answering lookups from a secret mapping that
//! was retrieved once from AWS Secrets Manager and cached in memory.

use crate::client::{SecretClient, SecretMapping, normalize_key, normalize_key_spec};
use crate::errors::SecretsManagerError;
use vstd::prelude::*;

verus! {

/// One entry of the cached secret mapping. `value` is `Some` for a key
/// mapped to a plain string, and `None` for a key that was present in the
/// remote payload with a value of the wrong shape (not a string).
pub struct SecretEntry {
    /// The secret key, stored already free of the marker character.
    pub key: String,
    /// The secret value, or `None` for a present but non-string value.
    pub value: Option<String>,
}

/// The mathematical content of one entry: the key's characters paired with
/// the value's characters (or `None` for a non-string value).
pub open spec fn entry_view(e: SecretEntry) -> (Seq<char>, Option<Seq<char>>) {
    (
        e.key@,
        match e.value {
            Some(v) => Some(v@),
            None => None,
        },
    )
}

/// The views of a sequence of entries, in order.
pub open spec fn entries_view(s: Seq<SecretEntry>) -> Seq<(Seq<char>, Option<Seq<char>>)> {
    s.map_values(|e: SecretEntry| entry_view(e))
}

/// The secret mapping held by a sequence of key/value entries. A key that
/// occurs more than once is mapped by its last occurrence.
pub open spec fn map_of_entries(s: Seq<(Seq<char>, Option<Seq<char>>)>) -> SecretMapping
    decreases s.len(),
{
    if s.len() == 0 {
        Map::empty()
    } else {
        map_of_entries(s.drop_last()).insert(s.last().0, s.last().1)
    }
}

/// The mapping held by a sequence of entries contains exactly the keys
/// that occur somewhere in the sequence.
pub proof fn lemma_map_of_entries_domain(s: Seq<(Seq<char>, Option<Seq<char>>)>, k: Seq<char>)
    ensures
        map_of_entries(s).contains_key(k) <==> exists|i: int| 0 <= i < s.len() && s[i].0 == k,
    decreases s.len(),
{
    if s.len() > 0 {
        lemma_map_of_entries_domain(s.drop_last(), k);
        if s.last().0 == k {
            assert(s[s.len() - 1].0 == k);
        } else if exists|i: int| 0 <= i < s.drop_last().len() && s.drop_last()[i].0 == k {
            let i = choose|i: int| 0 <= i < s.drop_last().len() && s.drop_last()[i].0 == k;
            assert(s[i].0 == k);
        } else if exists|i: int| 0 <= i < s.len() && s[i].0 == k {
            let i = choose|i: int| 0 <= i < s.len() && s[i].0 == k;
            assert(s.drop_last()[i].0 == k);
        }
    }
}

/// A key that occurs in a sequence of entries is mapped to the value of
/// its last occurrence.
pub proof fn lemma_map_of_entries_last_occurrence(
    s: Seq<(Seq<char>, Option<Seq<char>>)>,
    i: int,
)
    requires
        0 <= i < s.len(),
        forall|j: int| i < j < s.len() ==> s[j].0 != s[i].0,
    ensures
        map_of_entries(s).contains_key(s[i].0),
        map_of_entries(s)[s[i].0] == s[i].1,
    decreases s.len(),
{
    if i == s.len() - 1 {
        assert(s.last() == s[i]);
    } else {
        assert(s.drop_last()[i] == s[i]);
        lemma_map_of_entries_last_occurrence(s.drop_last(), i);
        assert(s.last() == s[s.len() - 1]);
    }
}

/// Client for accessing secrets cached from AWS Secrets Manager.
///
/// This client holds the secrets in memory after they have been retrieved
/// from the remote store and answers lookups by key, with no further
/// network access. The mapping is immutable for the lifetime of the
/// instance.
pub struct AWSSecretClient {
    /// The cached secret entries.
    pub(crate) entries: Vec<SecretEntry>,
}

impl AWSSecretClient {
    /// Constructs a client that answers lookups from exactly the given
    /// entries; a repeated key is answered by its last occurrence.
    pub fn from_entries(entries: Vec<SecretEntry>) -> (r: AWSSecretClient)
        ensures
            r.mapping() == map_of_entries(entries_view(entries@)),
    {
        AWSSecretClient { entries }
    }
}

impl Default for AWSSecretClient {
    /// The default client holds no secrets at all: every lookup fails.
    fn default() -> (r: AWSSecretClient)
        ensures
            r.mapping() == Map::<Seq<char>, Option<Seq<char>>>::empty(),
    {
        AWSSecretClient { entries: Vec::new() }
    }
}

impl SecretClient for AWSSecretClient {
    closed spec fn mapping(&self) -> SecretMapping {
        map_of_entries(entries_view(self.entries@))
    }

    /// Retrieves a secret from the cached secrets by its key.
    ///
    /// The key is normalized first: a leading marker character (`!`) is
    /// stripped. The normalized key is then looked up in the cached
    /// mapping; a key that is absent, or present with a non-string value,
    /// fails with `SecretsManagerError::SecretNotFound`.
    fn get_by_key(&self, key: &str) -> (r: Result<String, SecretsManagerError>) {
        let normalized = normalize_key(key);
        let ghost ev = entries_view(self.entries@);
        let ghost nk = normalize_key_spec(key@);
        let ghost m = map_of_entries(ev);
        proof {
            assert(ev.take(self.entries@.len() as int) =~= ev);
        }
        let mut i: usize = self.entries.len();
        while i > 0
            invariant
                i <= self.entries@.len(),
                normalized@ == nk,
                nk == normalize_key_spec(key@),
                ev == entries_view(self.entries@),
                m == map_of_entries(ev),
                m.contains_key(nk) ==> map_of_entries(ev.take(i as int)).contains_key(nk)
                    && map_of_entries(ev.take(i as int))[nk] == m[nk],
                !m.contains_key(nk) ==> !map_of_entries(ev.take(i as int)).contains_key(nk),
            decreases i,
        {
            i = i - 1;
            proof {
                assert(ev.take(i as int + 1).drop_last() =~= ev.take(i as int));
                assert(ev.take(i as int + 1).last() == ev[i as int]);
                assert(ev[i as int] == entry_view(self.entries@[i as int]));
            }
            let e = &self.entries[i];
            if e.key == normalized {
                match &e.value {
                    Some(v) => {
                        return Ok(v.clone());
                    },
                    None => {
                        return Err(SecretsManagerError::SecretNotFound);
                    },
                }
            }
        }
        proof {
            assert(ev.take(0) =~= Seq::<(Seq<char>, Option<Seq<char>>)>::empty());
        }
        Err(SecretsManagerError::SecretNotFound)
    }
}

} // verus!
