//! The provider's key set, kept as `jsonwebtoken` parsed it.
//!
//! A key set is an ordered collection of keys.  The gateway selects a key
//! by its identifier and hands it to the signature check; it never looks
//! inside the key material itself.

use vstd::prelude::*;
use crate::rejection::KeyFetchError;

verus! {

#[verifier::external_type_specification]
#[verifier::external_body]
pub struct ExJwkSet(jsonwebtoken::jwk::JwkSet);

#[verifier::external_type_specification]
#[verifier::external_body]
pub struct ExDecodingKey(jsonwebtoken::DecodingKey);

/// The key ids of a set's keys, in the order of the set; `None` for a key
/// that carries no id.
pub uninterp spec fn key_ids(set: jsonwebtoken::jwk::JwkSet) -> Seq<Option<Seq<char>>>;

/// For each key of a set, whether its material makes a verification key.
/// As long as the set itself.
pub uninterp spec fn key_usable(set: jsonwebtoken::jwk::JwkSet) -> Seq<bool>;

/// The key ids of the key set that a document spells, or `None` where the
/// document is not a key set.
pub uninterp spec fn document_key_ids(document: Seq<u8>) -> Option<Seq<Option<Seq<char>>>>;

/// For each key of the key set that a document spells, whether its
/// material makes a verification key; `None` where the document is not a
/// key set.
pub uninterp spec fn document_key_usable(document: Seq<u8>) -> Option<Seq<bool>>;

/// The verification key that the material of a set's key at `index`
/// makes, where it makes one.
pub uninterp spec fn set_key(set: jsonwebtoken::jwk::JwkSet, index: int) -> jsonwebtoken::DecodingKey;

/// The verification key that the material of the key at `index` makes, in
/// the key set that a document spells.
pub uninterp spec fn document_key(document: Seq<u8>, index: int) -> jsonwebtoken::DecodingKey;

/// `serde_json::from_slice::<JwkSet>`: parses a JSON object with a `keys`
/// array of JSON Web Keys.  Trusted: the outcome is a function of the bytes,
/// and a parsed set holds the keys of the document, in its order.
#[verifier::external_body]
fn parse_key_set(document: &[u8]) -> (r: Option<jsonwebtoken::jwk::JwkSet>)
    ensures
        match r {
            Some(set) => {
                &&& document_key_ids(document@) == Some(key_ids(set))
                &&& document_key_usable(document@) == Some(key_usable(set))
                &&& forall|i: int|
                    0 <= i < key_ids(set).len() ==> #[trigger] document_key(document@, i)
                        == set_key(set, i)
            },
            None => document_key_ids(document@) is None && document_key_usable(document@) is None,
        },
{
    serde_json::from_slice::<jsonwebtoken::jwk::JwkSet>(document).ok()
}

/// `Vec::len` of the set's `keys`.  Trusted: it is the number of keys, and
/// both facts about the keys are stated of every one of them.
#[verifier::external_body]
fn key_count(set: &jsonwebtoken::jwk::JwkSet) -> (n: usize)
    ensures
        n == key_ids(*set).len(),
        n == key_usable(*set).len(),
{
    set.keys.len()
}

/// Reads `common.key_id` of the key at an index.  Trusted: it is that
/// key's entry in [`key_ids`].
#[verifier::external_body]
fn key_id_at(set: &jsonwebtoken::jwk::JwkSet, index: usize) -> (r: Option<String>)
    requires
        index < key_ids(*set).len(),
    ensures
        match r {
            Some(id) => key_ids(*set)[index as int] == Some(id@),
            None => key_ids(*set)[index as int] is None,
        },
{
    set.keys[index].common.key_id.clone()
}

/// `DecodingKey::from_jwk` on the key at an index: base64-decodes the
/// key's parameters.  Trusted: it succeeds exactly on the keys that
/// [`key_usable`] marks, and the key it builds is a function of the set and
/// the index.
#[verifier::external_body]
fn decoding_key_at(set: &jsonwebtoken::jwk::JwkSet, index: usize) -> (r: Option<
    jsonwebtoken::DecodingKey,
>)
    requires
        index < key_usable(*set).len(),
    ensures
        r is Some == key_usable(*set)[index as int],
        r matches Some(key) ==> key == set_key(*set, index as int),
{
    jsonwebtoken::DecodingKey::from_jwk(&set.keys[index]).ok()
}

/// The provider's published keys.
pub struct KeySet {
    set: jsonwebtoken::jwk::JwkSet,
}

/// The first position at which `ids` holds `id`, if any.
pub open spec fn first_match(ids: Seq<Option<Seq<char>>>, id: Seq<char>) -> Option<int>
    decreases ids.len(),
{
    if ids.len() == 0 {
        None
    } else if ids[0] == Some(id) {
        Some(0)
    } else {
        match first_match(ids.drop_first(), id) {
            Some(i) => Some(i + 1),
            None => None,
        }
    }
}

/// `first_match` finds a position that holds the id, with none before it,
/// and finds nothing only where no position holds it.
pub proof fn lemma_first_match(ids: Seq<Option<Seq<char>>>, id: Seq<char>)
    ensures
        match first_match(ids, id) {
            Some(i) => 0 <= i < ids.len() && ids[i] == Some(id) && forall|j: int|
                0 <= j < i ==> ids[j] != Some(id),
            None => forall|j: int| 0 <= j < ids.len() ==> ids[j] != Some(id),
        },
    decreases ids.len(),
{
    if ids.len() == 0 {
    } else if ids[0] == Some(id) {
    } else {
        let rest = ids.drop_first();
        lemma_first_match(rest, id);
        match first_match(rest, id) {
            Some(i) => {
                assert forall|j: int| 0 <= j < i + 1 implies ids[j] != Some(id) by {
                    if j > 0 {
                        assert(ids[j] == rest[j - 1]);
                    }
                }
                assert(ids[i + 1] == rest[i]);
            },
            None => {
                assert forall|j: int| 0 <= j < ids.len() implies ids[j] != Some(id) by {
                    if j > 0 {
                        assert(ids[j] == rest[j - 1]);
                    }
                }
            },
        }
    }
}

/// A position that holds the id and has none before it is the first match.
pub proof fn lemma_first_match_is(ids: Seq<Option<Seq<char>>>, id: Seq<char>, i: int)
    requires
        0 <= i < ids.len(),
        ids[i] == Some(id),
        forall|j: int| 0 <= j < i ==> ids[j] != Some(id),
    ensures
        first_match(ids, id) == Some(i),
{
    lemma_first_match(ids, id);
}

/// Where no position holds the id there is no first match.
pub proof fn lemma_first_match_none(ids: Seq<Option<Seq<char>>>, id: Seq<char>)
    requires
        forall|j: int| 0 <= j < ids.len() ==> ids[j] != Some(id),
    ensures
        first_match(ids, id) is None,
{
    lemma_first_match(ids, id);
}

impl KeySet {
    /// The key ids, in the order of the set.
    pub closed spec fn ids(&self) -> Seq<Option<Seq<char>>> {
        key_ids(self.set)
    }

    /// For each key, whether its material makes a verification key.
    pub closed spec fn usable(&self) -> Seq<bool> {
        key_usable(self.set)
    }

    /// The verification key that the key at `index` makes, where it
    /// makes one.
    pub closed spec fn key(&self, index: int) -> jsonwebtoken::DecodingKey {
        set_key(self.set, index)
    }

    /// Reads a fetched document as a key set.  A fetch that failed is a
    /// network error, a document that does not parse is malformed.
    pub fn resolve(fetched: Option<&[u8]>) -> (r: Result<KeySet, KeyFetchError>)
        ensures
            match r {
                Ok(set) => {
                    &&& fetched matches Some(document)
                    &&& document_key_ids(fetched->0@) == Some(set.ids())
                    &&& document_key_usable(fetched->0@) == Some(set.usable())
                    &&& forall|i: int|
                        0 <= i < set.ids().len() ==> #[trigger] document_key(fetched->0@, i)
                            == set.key(i)
                },
                Err(KeyFetchError::Network) => fetched is None,
                Err(KeyFetchError::Malformed) => fetched matches Some(document) && document_key_ids(
                    document@,
                ) is None,
            },
    {
        match fetched {
            None => Err(KeyFetchError::Network),
            Some(document) => match parse_key_set(document) {
                None => Err(KeyFetchError::Malformed),
                Some(set) => Ok(KeySet { set }),
            },
        }
    }

    /// The number of keys.
    pub fn len(&self) -> (n: usize)
        ensures
            n == self.ids().len(),
            n == self.usable().len(),
    {
        key_count(&self.set)
    }

    /// The key id of the key at `index`.
    pub fn key_id(&self, index: usize) -> (r: Option<String>)
        requires
            index < self.ids().len(),
        ensures
            match r {
                Some(id) => self.ids()[index as int] == Some(id@),
                None => self.ids()[index as int] is None,
            },
    {
        key_id_at(&self.set, index)
    }

    /// Scans the keys in order for the first whose id is exactly `id`.
    /// Absence is not an error here: the caller decides what it means.
    pub fn find_by_key_id(&self, id: &str) -> (r: Option<usize>)
        ensures
            match r {
                Some(i) => first_match(self.ids(), id@) == Some(i as int) && i < self.ids().len()
                    && self.ids()[i as int] == Some(id@),
                None => first_match(self.ids(), id@) is None,
            },
    {
        let wanted = id.to_owned();
        let n = key_count(&self.set);
        let mut i: usize = 0;
        while i < n
            invariant
                n == key_ids(self.set).len(),
                i <= n,
                wanted@ == id@,
                forall|j: int| 0 <= j < i ==> key_ids(self.set)[j] != Some(id@),
            decreases n - i,
        {
            match key_id_at(&self.set, i) {
                Some(candidate) => {
                    if candidate == wanted {
                        proof {
                            lemma_first_match_is(key_ids(self.set), id@, i as int);
                        }
                        return Some(i);
                    }
                },
                None => {},
            }
            i = i + 1;
        }
        proof {
            lemma_first_match_none(key_ids(self.set), id@);
        }
        None
    }

    /// Builds the verification key of the key at `index`, if its material
    /// allows one.
    pub fn materialize(&self, index: usize) -> (r: Option<jsonwebtoken::DecodingKey>)
        requires
            index < self.ids().len(),
        ensures
            index < self.usable().len(),
            r is Some == self.usable()[index as int],
            r matches Some(key) ==> key == self.key(index as int),
    {
        let _ = key_count(&self.set);
        decoding_key_at(&self.set, index)
    }
}

} // verus!
