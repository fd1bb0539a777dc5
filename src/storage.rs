use vstd::prelude::*;

verus! {

#[verifier::external_type_specification]
#[verifier::external_body]
#[verifier::reject_recursive_types(K)]
#[verifier::reject_recursive_types(V)]
#[verifier::reject_recursive_types(S)]
pub struct ExAHashMap<K, V, S>(ahash::AHashMap<K, V, S>);

#[verifier::external_type_specification]
#[verifier::external_body]
pub struct ExBincodeErrorKind(bincode::ErrorKind);

#[verifier::external_type_specification]
#[verifier::external_body]
pub struct ExRandomState(ahash::RandomState);

/// The entries that a map holds, keys and values as character sequences.
pub uninterp spec fn entries(m: ahash::AHashMap<String, String>) -> Map<Seq<char>, Seq<char>>;

/// The entries that bincode's encoding `b` of a string map decodes to, or
/// `None` if it is no such encoding.
pub uninterp spec fn decoded_entries(b: Seq<u8>) -> Option<Map<Seq<char>, Seq<char>>>;

/// The empty cache.
pub open spec fn no_entries() -> Map<Seq<char>, Seq<char>> {
    Map::empty()
}

/// Relies on ahash::AHashMap::new: a new map is empty.
#[verifier::external_body]
fn map_new() -> (r: ahash::AHashMap<String, String>)
    ensures
        entries(r) == no_entries(),
{
    ahash::AHashMap::new()
}

/// Relies on ahash::AHashMap::insert: the key now maps to the value.
#[verifier::external_body]
fn map_insert(m: &mut ahash::AHashMap<String, String>, k: String, v: String)
    ensures
        entries(*final(m)) == entries(*old(m)).insert(k@, v@),
{
    m.insert(k, v);
}

/// Relies on ahash::AHashMap::remove: the key is no longer mapped.
#[verifier::external_body]
fn map_remove(m: &mut ahash::AHashMap<String, String>, k: &str)
    ensures
        entries(*final(m)) == entries(*old(m)).remove(k@),
{
    m.remove(k);
}

/// Relies on ahash::AHashMap::get: the value mapped to the key, if any.
#[verifier::external_body]
fn map_get(m: &ahash::AHashMap<String, String>, k: &str) -> (r: Option<String>)
    ensures
        match r {
            Some(v) => entries(*m).contains_key(k@) && v@ == entries(*m)[k@],
            None => !entries(*m).contains_key(k@),
        },
{
    m.get(k).cloned()
}

/// Relies on std::collections::HashMap::clear, reached through AHashMap's
/// Deref: the map becomes empty.
#[verifier::external_body]
fn map_clear(m: &mut ahash::AHashMap<String, String>)
    ensures
        entries(*final(m)) == no_entries(),
{
    m.clear();
}

/// Relies on std::collections::HashMap::keys, reached through AHashMap's
/// Deref: each key once, in an order that the hasher decides.
#[verifier::external_body]
fn map_keys(m: &ahash::AHashMap<String, String>) -> (r: Vec<String>)
    ensures
        forall|i: int| 0 <= i < r@.len() ==> entries(*m).contains_key(#[trigger] r@[i]@),
        forall|k: Seq<char>| #[trigger] entries(*m).contains_key(k) ==> (exists|i: int| 0 <= i < r@.len() && r@[i]@ == k),
        forall|i: int, j: int| 0 <= i < j < r@.len() ==> r@[i]@ != r@[j]@,
{
    m.keys().cloned().collect()
}

/// Relies on bincode::deserialize: the decoded map, or an error for bytes
/// that are no encoding of a string map.
#[verifier::external_body]
fn map_decode(b: &[u8]) -> (r: Result<ahash::AHashMap<String, String>, bincode::Error>)
    ensures
        match r {
            Ok(m) => decoded_entries(b@) == Some(entries(m)),
            Err(_) => decoded_entries(b@) is None,
        },
{
    bincode::deserialize(b)
}

/// Relies on bincode::serialize: with no size limit, a map of strings, which
/// reports its length, always encodes; bincode::deserialize decodes the bytes
/// back to the same entries.
#[verifier::external_body]
fn map_encode(m: &ahash::AHashMap<String, String>) -> (r: Result<Vec<u8>, bincode::Error>)
    ensures
        r is Ok,
        r matches Ok(b) ==> decoded_entries(b@) == Some(entries(*m)),
{
    bincode::serialize(m)
}

/// Why a saved cache could not be loaded.
#[derive(Clone, Copy, Debug, PartialEq, Eq, Structural)]
pub enum StorageError {
    /// The saved bytes are no encoding of a string map.
    Corrupt,
}

/// A persistent key-value cache of strings.
pub struct Storage {
    data: ahash::AHashMap<String, String>,
}

impl View for Storage {
    type V = Map<Seq<char>, Seq<char>>;

    closed spec fn view(&self) -> Map<Seq<char>, Seq<char>> {
        entries(self.data)
    }
}

impl Storage {
    /// The cache held by `saved`, the bytes that `save` produced earlier:
    /// empty when nothing was saved, an error when the bytes do not decode.
    pub fn load(saved: Option<Vec<u8>>) -> (r: Result<Storage, StorageError>)
        ensures
            match saved {
                None => r matches Ok(s) && s@ == no_entries(),
                Some(b) => match decoded_entries(b@) {
                    Some(m) => r matches Ok(s) && s@ == m,
                    None => r == Err::<Storage, StorageError>(StorageError::Corrupt),
                },
            },
    {
        match saved {
            None => Ok(Storage { data: map_new() }),
            Some(bytes) => match map_decode(bytes.as_slice()) {
                Ok(data) => Ok(Storage { data }),
                Err(_) => Err(StorageError::Corrupt),
            },
        }
    }

    /// The bytes to save the cache as, from which `load` restores the same
    /// entries.
    pub fn save(&self) -> (r: Vec<u8>)
        ensures
            decoded_entries(r@) == Some(self@),
    {
        match map_encode(&self.data) {
            Ok(bytes) => bytes,
            Err(_) => unreached(),
        }
    }

    /// Maps `key` to `value`, or removes `key` when `value` is `None`.
    pub fn set(&mut self, key: &str, value: Option<&str>)
        ensures
            final(self)@ == match value {
                Some(v) => old(self)@.insert(key@, v@),
                None => old(self)@.remove(key@),
            },
    {
        match value {
            Some(v) => map_insert(&mut self.data, key.to_owned(), v.to_owned()),
            None => map_remove(&mut self.data, key),
        }
    }

    /// The value mapped to `key`, if any.
    pub fn get(&self, key: &str) -> (r: Option<String>)
        ensures
            match r {
                Some(v) => self@.contains_key(key@) && v@ == self@[key@],
                None => !self@.contains_key(key@),
            },
    {
        map_get(&self.data, key)
    }

    /// Removes every entry.
    pub fn clear(&mut self)
        ensures
            final(self)@ == no_entries(),
    {
        map_clear(&mut self.data);
    }

    /// Every key, each once, in no particular order.
    pub fn keys(&self) -> (r: Vec<String>)
        ensures
            forall|i: int| 0 <= i < r@.len() ==> self@.contains_key(#[trigger] r@[i]@),
            forall|k: Seq<char>| #[trigger] self@.contains_key(k) ==> (exists|i: int| 0 <= i < r@.len() && r@[i]@ == k),
            forall|i: int, j: int| 0 <= i < j < r@.len() ==> r@[i]@ != r@[j]@,
    {
        map_keys(&self.data)
    }
}

} // verus!
