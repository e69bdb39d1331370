//! Players: who is connected, where they are and how far they see.

use rustc_hash::FxBuildHasher;
use std::collections::HashMap;
use vstd::prelude::*;

use crate::types::{ChunkPos, Position};

verus! {

/// Names a connected player.
#[derive(Debug, Clone, Copy, PartialEq, Eq, PartialOrd, Ord, Hash, Structural)]
pub struct PlayerId(pub u64);

impl PlayerId {
    /// Takes the next id from `counter` and moves the counter on. Ids do
    /// not repeat until the counter has run through all of `u64`.
    pub fn new(counter: &mut u64) -> (id: PlayerId)
        ensures
            id.0 == *old(counter),
            *final(counter) == (if *old(counter) == u64::MAX {
                0
            } else {
                (*old(counter) + 1) as u64
            }),
    {
        let id = PlayerId(*counter);
        *counter = if *counter == u64::MAX {
            0
        } else {
            *counter + 1
        };
        id
    }
}

/// The largest render distance, in chunks along each axis, that a player
/// can have.
pub const MAX_RENDER_DISTANCE: i32 = 1048576;

/// A connected player.
#[derive(Debug, Clone, Copy, PartialEq, Eq)]
pub struct Player {
    pub id: PlayerId,
    pub position: Position,
    /// How many chunks the player sees in each direction along x, y and z.
    pub render_distance: ChunkPos,
}

impl Player {
    /// The render distance is not negative and not above the maximum.
    pub open spec fn wf(&self) -> bool {
        &&& 0 <= self.render_distance.x <= MAX_RENDER_DISTANCE
        &&& 0 <= self.render_distance.y <= MAX_RENDER_DISTANCE
        &&& 0 <= self.render_distance.z <= MAX_RENDER_DISTANCE
    }

    /// A player at the origin who sees 10 chunks far along x and z and 5
    /// chunks far along y.
    pub fn new(id: PlayerId) -> (player: Player)
        ensures
            player.wf(),
            player.id == id,
            player.position == (Position { x: 0, y: 0, z: 0 }),
            player.render_distance == (ChunkPos { x: 10, y: 5, z: 10 }),
    {
        Player { id, position: Position::new(0, 0, 0), render_distance: ChunkPos::new(10, 5, 10) }
    }

    pub fn id(&self) -> (id: PlayerId)
        ensures
            id == self.id,
    {
        self.id
    }

    /// The chunk that the player is in.
    pub open spec fn spec_chunk_position(&self) -> ChunkPos {
        self.position.spec_as_chunk_pos()
    }

    /// The chunk that the player is in.
    #[verifier::when_used_as_spec(spec_chunk_position)]
    pub fn chunk_position(&self) -> (chunk: ChunkPos)
        ensures
            chunk == self.spec_chunk_position(),
            -67108864 <= chunk.x < 67108864,
            -67108864 <= chunk.y < 67108864,
            -67108864 <= chunk.z < 67108864,
    {
        ChunkPos::from(self.position)
    }

    pub fn render_distance(&self) -> (distance: ChunkPos)
        ensures
            distance == self.render_distance,
    {
        self.render_distance
    }
}

/// The connected players, by the number of their id.
pub type PlayerMap = HashMap<u64, Player, FxBuildHasher>;

/// Calls `HashMap::with_hasher` with the hasher of `rustc_hash`, which is
/// taken to return an empty map.
#[verifier::external_body]
pub(crate) fn player_map_new() -> (players: PlayerMap)
    ensures
        players@ == (Map::<u64, Player>::empty()),
{
    HashMap::with_hasher(FxBuildHasher)
}

/// Calls `HashMap::insert` on a map that hashes with `rustc_hash`, which
/// is taken to store `player` under `id`, replacing what was stored there.
#[verifier::external_body]
pub(crate) fn player_map_insert(players: &mut PlayerMap, id: u64, player: Player)
    ensures
        final(players)@ == old(players)@.insert(id, player),
{
    players.insert(id, player);
}

/// Calls `HashMap::get` on a map that hashes with `rustc_hash`, which is
/// taken to find the player stored under `id`, if any.
#[verifier::external_body]
pub(crate) fn player_map_get(players: &PlayerMap, id: u64) -> (player: Option<Player>)
    ensures
        player == (if players@.contains_key(id) {
            Some(players@[id])
        } else {
            None
        }),
{
    players.get(&id).copied()
}

} // verus!
