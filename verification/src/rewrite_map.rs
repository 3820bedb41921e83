//! The mapping from the identifier of an original commit to the identifier
//! of the commit that stands for it after stamping.

use indexmap::IndexMap;
use vstd::prelude::*;

verus! {

/// Makes `indexmap::IndexMap` known to the verifier, as a type whose inside
/// it does not see.
#[verifier::external_type_specification]
#[verifier::external_body]
#[verifier::reject_recursive_types(K)]
#[verifier::reject_recursive_types(V)]
#[verifier::reject_recursive_types(S)]
pub struct ExIndexMap<K, V, S>(IndexMap<K, V, S>);

/// The entries that an `indexmap::IndexMap` from commit identifier to commit
/// identifier holds.
pub uninterp spec fn index_map_entries(map: IndexMap<Vec<u8>, Vec<u8>>) -> Map<Seq<u8>, Seq<u8>>;

/// The mapping without entries.
pub open spec fn no_entries() -> Map<Seq<u8>, Seq<u8>> {
    Map::empty()
}

/// Calls `IndexMap::new`. Trusted: the new map holds no entry.
#[verifier::external_body]
fn index_map_new() -> (created: IndexMap<Vec<u8>, Vec<u8>>)
    ensures
        index_map_entries(created) == no_entries(),
{
    IndexMap::new()
}

/// Calls `IndexMap::insert`. Trusted: afterwards the key leads to the given
/// value, whether or not it was present before, and every other entry is as
/// it was.
#[verifier::external_body]
fn index_map_insert(map: &mut IndexMap<Vec<u8>, Vec<u8>>, key: Vec<u8>, value: Vec<u8>)
    ensures
        index_map_entries(*final(map)) == index_map_entries(*old(map)).insert(key@, value@),
{
    map.insert(key, value);
}

/// Calls `IndexMap::get`. Trusted: the stored value of a key that is present
/// comes back, copied; `None` comes back for a key that is absent.
#[verifier::external_body]
fn index_map_get(map: &IndexMap<Vec<u8>, Vec<u8>>, key: &Vec<u8>) -> (value: Option<Vec<u8>>)
    ensures
        match value {
            Some(v) => index_map_entries(*map).contains_key(key@) && v@ == index_map_entries(
                *map,
            )[key@],
            None => !index_map_entries(*map).contains_key(key@),
        },
{
    map.get(key).cloned()
}

/// Original commit identifier to rewritten commit identifier. A commit that
/// is carried through unchanged maps to itself.
pub struct RewriteMap {
    entries: IndexMap<Vec<u8>, Vec<u8>>,
}

impl View for RewriteMap {
    type V = Map<Seq<u8>, Seq<u8>>;

    closed spec fn view(&self) -> Map<Seq<u8>, Seq<u8>> {
        index_map_entries(self.entries)
    }
}

/// The identifier that `id` stands for after stamping: its entry in the
/// mapping, or `id` itself where the mapping has none.
pub open spec fn resolve(map: Map<Seq<u8>, Seq<u8>>, id: Seq<u8>) -> Seq<u8> {
    if map.contains_key(id) {
        map[id]
    } else {
        id
    }
}

impl RewriteMap {
    /// A mapping without entries.
    pub fn new() -> (map: RewriteMap)
        ensures
            map@ == no_entries(),
    {
        RewriteMap { entries: index_map_new() }
    }

    /// Records that `original` is now represented by `rewritten`.
    pub fn insert(&mut self, original: Vec<u8>, rewritten: Vec<u8>)
        ensures
            final(self)@ == old(self)@.insert(original@, rewritten@),
    {
        index_map_insert(&mut self.entries, original, rewritten);
    }

    /// The rewritten identifier recorded for `original`, if any.
    pub fn get(&self, original: &Vec<u8>) -> (rewritten: Option<Vec<u8>>)
        ensures
            match rewritten {
                Some(id) => self@.contains_key(original@) && id@ == self@[original@],
                None => !self@.contains_key(original@),
            },
    {
        index_map_get(&self.entries, original)
    }

    /// The identifier that `id` stands for after stamping.
    pub fn resolve(&self, id: &Vec<u8>) -> (resolved: Vec<u8>)
        ensures
            resolved@ == resolve(self@, id@),
    {
        match self.get(id) {
            Some(rewritten) => rewritten,
            None => id.clone(),
        }
    }
}

} // verus!
