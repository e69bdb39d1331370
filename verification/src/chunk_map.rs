//! The concurrent map that holds the loaded chunks, and what is assumed of it.
//!
//! The map is a `DashMap`. Its code is not verified here: each function below
//! calls one of its methods and states, without proof, what that method does
//! to the map's contents. The functions that change the map take it by
//! exclusive reference, so no other thread can touch it during the call.

use dashmap::DashMap;
use rustc_hash::FxBuildHasher;
use vstd::prelude::*;

use crate::chunk::LoadedChunk;

verus! {

/// Declares `dashmap::DashMap`. Nothing is known of what is inside a value
/// of it but what the functions below state.
#[verifier::external_type_specification]
#[verifier::external_body]
#[verifier::reject_recursive_types(K)]
#[verifier::reject_recursive_types(V)]
#[verifier::reject_recursive_types(S)]
pub struct ExDashMap<K, V, S>(DashMap<K, V, S>);

/// Declares `rustc_hash::FxBuildHasher`, the hasher of the maps and sets of
/// this library. It has no state, and nothing is stated of it.
#[verifier::external_type_specification]
#[verifier::external_body]
pub struct ExFxBuildHasher(FxBuildHasher);

/// The coordinates of a chunk, as the key under which it is stored.
pub type ChunkKey = (i32, i32, i32);

/// The store of loaded chunks.
pub type ChunkMap = DashMap<ChunkKey, LoadedChunk, FxBuildHasher>;

/// The chunks that a store holds, by key.
pub uninterp spec fn chunk_map_view(map: ChunkMap) -> Map<ChunkKey, LoadedChunk>;

/// Calls `DashMap::with_hasher`, which is taken to return a map without
/// entries.
#[verifier::external_body]
pub(crate) fn chunk_map_new() -> (map: ChunkMap)
    ensures
        chunk_map_view(map) == (Map::<ChunkKey, LoadedChunk>::empty()),
{
    DashMap::with_hasher(FxBuildHasher)
}

/// Calls `DashMap::insert`, which is taken to store `chunk` under `key`,
/// replacing and returning the chunk that was stored there, if any, and to
/// leave all other entries as they were.
#[verifier::external_body]
pub(crate) fn chunk_map_insert(map: &mut ChunkMap, key: ChunkKey, chunk: LoadedChunk) -> (previous: Option<
    LoadedChunk,
>)
    ensures
        chunk_map_view(*final(map)) == chunk_map_view(*old(map)).insert(key, chunk),
        previous == (if chunk_map_view(*old(map)).contains_key(key) {
            Some(chunk_map_view(*old(map))[key])
        } else {
            None
        }),
{
    map.insert(key, chunk)
}

/// Calls `DashMap::remove`, which is taken to take out and return the chunk
/// stored under `key`, if any, and to leave all other entries as they were.
#[verifier::external_body]
pub(crate) fn chunk_map_remove(map: &mut ChunkMap, key: ChunkKey) -> (removed: Option<LoadedChunk>)
    ensures
        chunk_map_view(*final(map)) == chunk_map_view(*old(map)).remove(key),
        removed == (if chunk_map_view(*old(map)).contains_key(key) {
            Some(chunk_map_view(*old(map))[key])
        } else {
            None
        }),
{
    map.remove(&key).map(|entry| entry.1)
}

/// Calls `DashMap::get`, which is taken to find the chunk stored under
/// `key`, if any. Where there is one, `f` is called on it and its result
/// returned.
#[verifier::external_body]
pub(crate) fn chunk_map_with<T, F: FnOnce(&LoadedChunk) -> T>(map: &ChunkMap, key: ChunkKey, f: F) -> (result:
    Option<T>)
    requires
        chunk_map_view(*map).contains_key(key) ==> f.requires((&chunk_map_view(*map)[key],)),
    ensures
        match result {
            Some(value) => chunk_map_view(*map).contains_key(key) && f.ensures(
                (&chunk_map_view(*map)[key],),
                value,
            ),
            None => !chunk_map_view(*map).contains_key(key),
        },
{
    map.get(&key).map(|entry| f(entry.value()))
}

/// Calls `DashMap::contains_key`, which is taken to tell whether a chunk is
/// stored under `key`.
#[verifier::external_body]
pub(crate) fn chunk_map_contains_key(map: &ChunkMap, key: ChunkKey) -> (present: bool)
    ensures
        present == chunk_map_view(*map).contains_key(key),
{
    map.contains_key(&key)
}

} // verus!
