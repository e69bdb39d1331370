//! Coordinate types: chunk coordinates, global block coordinates and
//! fixed-point world positions, with the conversions between them.

use vstd::prelude::*;
use vstd::arithmetic::div_mod::{lemma_fundamental_div_mod, lemma_fundamental_div_mod_converse};
use vstd::std_specs::convert::FromSpecImpl;
use vstd::std_specs::ops::{AddSpecImpl, DivSpecImpl, MulSpecImpl, SubSpecImpl};

verus! {

/// Edge length of a chunk, in blocks.
pub const CHUNK_SIZE: usize = 32;

/// Number of position units along one block edge.
///
/// A [`Position`] is a fixed-point coordinate: `POSITION_UNITS` units make up
/// one block, so `Position::new(POSITION_UNITS / 2, 0, 0)` lies half a block
/// along the x axis.
pub const POSITION_UNITS: i64 = 65536;

/// Floor of `a / d` for a positive divisor, as a mathematical integer.
pub open spec fn floor_div(a: int, d: int) -> int {
    a / d
}

/// `a - d * floor_div(a, d)`, always in `[0, d)` for a positive divisor.
pub open spec fn floor_mod(a: int, d: int) -> int {
    a % d
}

/// `value` limited to the range of `i32`.
pub open spec fn clamp_i32(value: int) -> int {
    if value < i32::MIN {
        i32::MIN as int
    } else if value > i32::MAX {
        i32::MAX as int
    } else {
        value
    }
}

/// Division rounding toward negative infinity.
pub fn floor_div_i32(elem: i32, d: i32) -> (q: i32)
    requires
        d > 0,
    ensures
        q == floor_div(elem as int, d as int),
{
    if elem >= 0 {
        elem / d
    } else {
        let n: i32 = -(elem + 1);
        let q: i32 = -(n / d) - 1;
        proof {
            let r: int = d - 1 - (n as int % d as int);
            lemma_fundamental_div_mod(n as int, d as int);
            assert(elem as int == q as int * d as int + r) by (nonlinear_arith)
                requires
                    n as int == d as int * (n as int / d as int) + (n as int % d as int),
                    elem as int == -(n as int) - 1,
                    q as int == -(n as int / d as int) - 1,
                    r == d - 1 - (n as int % d as int),
            {}
            lemma_fundamental_div_mod_converse(elem as int, d as int, q as int, r);
        }
        q
    }
}

/// Remainder matching [`floor_div_i32`]: always in `[0, d)`.
pub fn floor_mod_i32(elem: i32, d: i32) -> (r: i32)
    requires
        d > 0,
    ensures
        r == floor_mod(elem as int, d as int),
        0 <= r < d,
{
    if elem >= 0 {
        elem % d
    } else {
        let n: i32 = -(elem + 1);
        let r: i32 = d - 1 - (n % d);
        proof {
            let q: int = -(n as int / d as int) - 1;
            lemma_fundamental_div_mod(n as int, d as int);
            assert(elem as int == q * d as int + r as int) by (nonlinear_arith)
                requires
                    n as int == d as int * (n as int / d as int) + (n as int % d as int),
                    elem as int == -(n as int) - 1,
                    q == -(n as int / d as int) - 1,
                    r as int == d - 1 - (n as int % d as int),
            {}
            lemma_fundamental_div_mod_converse(elem as int, d as int, q, r as int);
        }
        r
    }
}

/// Division rounding toward negative infinity, on 64-bit values.
pub fn floor_div_i64(elem: i64, d: i64) -> (q: i64)
    requires
        d > 0,
    ensures
        q == floor_div(elem as int, d as int),
{
    if elem >= 0 {
        elem / d
    } else {
        let n: i64 = -(elem + 1);
        let q: i64 = -(n / d) - 1;
        proof {
            let r: int = d - 1 - (n as int % d as int);
            lemma_fundamental_div_mod(n as int, d as int);
            assert(elem as int == q as int * d as int + r) by (nonlinear_arith)
                requires
                    n as int == d as int * (n as int / d as int) + (n as int % d as int),
                    elem as int == -(n as int) - 1,
                    q as int == -(n as int / d as int) - 1,
                    r == d - 1 - (n as int % d as int),
            {}
            lemma_fundamental_div_mod_converse(elem as int, d as int, q as int, r);
        }
        q
    }
}

/// Remainder matching [`floor_div_i64`]: always in `[0, d)`.
pub fn floor_mod_i64(elem: i64, d: i64) -> (r: i64)
    requires
        d > 0,
    ensures
        r == floor_mod(elem as int, d as int),
        0 <= r < d,
{
    if elem >= 0 {
        elem % d
    } else {
        let n: i64 = -(elem + 1);
        let r: i64 = d - 1 - (n % d);
        proof {
            let q: int = -(n as int / d as int) - 1;
            lemma_fundamental_div_mod(n as int, d as int);
            assert(elem as int == q * d as int + r as int) by (nonlinear_arith)
                requires
                    n as int == d as int * (n as int / d as int) + (n as int % d as int),
                    elem as int == -(n as int) - 1,
                    q == -(n as int / d as int) - 1,
                    r as int == d - 1 - (n as int % d as int),
            {}
            lemma_fundamental_div_mod_converse(elem as int, d as int, q, r as int);
        }
        r
    }
}

/// One of the three coordinate axes.
#[derive(Debug, Clone, Copy, PartialEq, Eq, Structural)]
pub enum Axis {
    X,
    Y,
    Z,
}

impl Axis {
    /// Position of the axis in an `[x, y, z]` triple.
    pub open spec fn spec_index(self) -> usize {
        match self {
            Axis::X => 0,
            Axis::Y => 1,
            Axis::Z => 2,
        }
    }

    #[verifier::when_used_as_spec(spec_index)]
    pub fn index(self) -> (i: usize)
        ensures
            i == self.spec_index(),
    {
        match self {
            Axis::X => 0,
            Axis::Y => 1,
            Axis::Z => 2,
        }
    }
}

/// Position of a chunk in chunk coordinates: one unit is one chunk edge.
#[derive(Debug, Clone, Copy, PartialEq, Eq, Hash, Structural)]
pub struct ChunkPos {
    pub x: i32,
    pub y: i32,
    pub z: i32,
}

/// Position of a block in block coordinates, global or relative to a chunk.
#[derive(Debug, Clone, Copy, PartialEq, Eq, Hash, Structural)]
pub struct BlockPos {
    pub x: i32,
    pub y: i32,
    pub z: i32,
}

/// Fixed-point position of anything that is not aligned to the block grid,
/// in units of `1 / POSITION_UNITS` of a block.
#[derive(Debug, Clone, Copy, PartialEq, Eq, Hash, Structural)]
pub struct Position {
    pub x: i64,
    pub y: i64,
    pub z: i64,
}

impl ChunkPos {
    pub fn new(x: i32, y: i32, z: i32) -> (pos: ChunkPos)
        ensures
            pos == (ChunkPos { x, y, z }),
    {
        ChunkPos { x, y, z }
    }

    /// The position with all three coordinates equal to `v`.
    pub fn splat(v: i32) -> (pos: ChunkPos)
        ensures
            pos == (ChunkPos { x: v, y: v, z: v }),
    {
        ChunkPos { x: v, y: v, z: v }
    }

    /// The coordinate triple under which a chunk is stored.
    pub open spec fn spec_key(self) -> (i32, i32, i32) {
        (self.x, self.y, self.z)
    }

    #[verifier::when_used_as_spec(spec_key)]
    pub fn key(self) -> (k: (i32, i32, i32))
        ensures
            k == self.spec_key(),
    {
        (self.x, self.y, self.z)
    }

    /// The chunk position stored under `key`.
    pub open spec fn spec_from_key(key: (i32, i32, i32)) -> ChunkPos {
        ChunkPos { x: key.0, y: key.1, z: key.2 }
    }

    #[verifier::when_used_as_spec(spec_from_key)]
    pub fn from_key(key: (i32, i32, i32)) -> (pos: ChunkPos)
        ensures
            pos == ChunkPos::spec_from_key(key),
    {
        ChunkPos { x: key.0, y: key.1, z: key.2 }
    }

    /// Whether the block coordinates of this chunk's corner fit in `i32`.
    pub open spec fn in_block_range(self) -> bool {
        &&& i32::MIN <= self.x * 32 <= i32::MAX
        &&& i32::MIN <= self.y * 32 <= i32::MAX
        &&& i32::MIN <= self.z * 32 <= i32::MAX
    }

    /// Block coordinate of the chunk's minimum corner.
    pub open spec fn spec_as_block_pos(self) -> BlockPos {
        BlockPos { x: (self.x * 32) as i32, y: (self.y * 32) as i32, z: (self.z * 32) as i32 }
    }

    /// Block coordinate of the chunk's minimum corner.
    pub fn as_block_pos(self) -> (pos: BlockPos)
        requires
            self.in_block_range(),
        ensures
            pos == self.spec_as_block_pos(),
            pos.x == self.x * 32,
            pos.y == self.y * 32,
            pos.z == self.z * 32,
    {
        BlockPos { x: self.x * 32, y: self.y * 32, z: self.z * 32 }
    }

    /// Position of the chunk's minimum corner.
    pub open spec fn spec_as_position(self) -> Position {
        Position {
            x: (self.x * 32 * POSITION_UNITS) as i64,
            y: (self.y * 32 * POSITION_UNITS) as i64,
            z: (self.z * 32 * POSITION_UNITS) as i64,
        }
    }

    /// Position of the chunk's minimum corner.
    pub fn as_position(self) -> (pos: Position)
        ensures
            pos == self.spec_as_position(),
            pos.x == self.x * 32 * POSITION_UNITS,
            pos.y == self.y * 32 * POSITION_UNITS,
            pos.z == self.z * 32 * POSITION_UNITS,
    {
        let x: i64 = self.x as i64;
        let y: i64 = self.y as i64;
        let z: i64 = self.z as i64;
        Position { x: x * 32 * POSITION_UNITS, y: y * 32 * POSITION_UNITS, z: z * 32 * POSITION_UNITS }
    }

    /// The coordinate along `axis`.
    pub open spec fn spec_component(self, axis: Axis) -> i32 {
        match axis {
            Axis::X => self.x,
            Axis::Y => self.y,
            Axis::Z => self.z,
        }
    }

    /// The coordinate along `axis`.
    #[verifier::when_used_as_spec(spec_component)]
    pub fn component(self, axis: Axis) -> (c: i32)
        ensures
            c == self.spec_component(axis),
    {
        match axis {
            Axis::X => self.x,
            Axis::Y => self.y,
            Axis::Z => self.z,
        }
    }

    /// This position with the coordinate along `axis` replaced by `value`.
    pub open spec fn spec_with_component(self, axis: Axis, value: i32) -> ChunkPos {
        match axis {
            Axis::X => ChunkPos { x: value, ..self },
            Axis::Y => ChunkPos { y: value, ..self },
            Axis::Z => ChunkPos { z: value, ..self },
        }
    }

    /// This position with the coordinate along `axis` replaced by `value`.
    #[verifier::when_used_as_spec(spec_with_component)]
    pub fn with_component(self, axis: Axis, value: i32) -> (pos: ChunkPos)
        ensures
            pos == self.spec_with_component(axis, value),
    {
        match axis {
            Axis::X => ChunkPos { x: value, y: self.y, z: self.z },
            Axis::Y => ChunkPos { x: self.x, y: value, z: self.z },
            Axis::Z => ChunkPos { x: self.x, y: self.y, z: value },
        }
    }

    /// The unit vector along `axis`.
    pub open spec fn spec_axis(axis: Axis) -> ChunkPos {
        (ChunkPos { x: 0, y: 0, z: 0 }).spec_with_component(axis, 1)
    }

    /// The unit vector along `axis`.
    #[verifier::when_used_as_spec(spec_axis)]
    pub fn axis(axis: Axis) -> (pos: ChunkPos)
        ensures
            pos == ChunkPos::spec_axis(axis),
    {
        ChunkPos::new(0, 0, 0).with_component(axis, 1)
    }

    pub fn xonly(&self) -> (pos: ChunkPos)
        ensures
            pos == (ChunkPos { x: self.x, y: 0, z: 0 }),
    {
        ChunkPos { x: self.x, y: 0, z: 0 }
    }

    pub fn yonly(&self) -> (pos: ChunkPos)
        ensures
            pos == (ChunkPos { x: 0, y: self.y, z: 0 }),
    {
        ChunkPos { x: 0, y: self.y, z: 0 }
    }

    pub fn zonly(&self) -> (pos: ChunkPos)
        ensures
            pos == (ChunkPos { x: 0, y: 0, z: self.z }),
    {
        ChunkPos { x: 0, y: 0, z: self.z }
    }

    pub fn xyonly(&self) -> (pos: ChunkPos)
        ensures
            pos == (ChunkPos { x: self.x, y: self.y, z: 0 }),
    {
        ChunkPos { x: self.x, y: self.y, z: 0 }
    }

    pub fn yzonly(&self) -> (pos: ChunkPos)
        ensures
            pos == (ChunkPos { x: 0, y: self.y, z: self.z }),
    {
        ChunkPos { x: 0, y: self.y, z: self.z }
    }

    pub fn xzonly(&self) -> (pos: ChunkPos)
        ensures
            pos == (ChunkPos { x: self.x, y: 0, z: self.z }),
    {
        ChunkPos { x: self.x, y: 0, z: self.z }
    }

    /// Zero everywhere but along `axis`.
    pub open spec fn spec_axis_only(&self, axis: Axis) -> ChunkPos {
        (ChunkPos { x: 0, y: 0, z: 0 }).spec_with_component(axis, self.spec_component(axis))
    }

    /// Zero everywhere but along `axis`.
    #[verifier::when_used_as_spec(spec_axis_only)]
    pub fn axis_only(&self, axis: Axis) -> (pos: ChunkPos)
        ensures
            pos == self.spec_axis_only(axis),
    {
        ChunkPos::new(0, 0, 0).with_component(axis, self.component(axis))
    }

    /// Zero along `axis`, unchanged elsewhere.
    pub open spec fn spec_all_but_axis(&self, axis: Axis) -> ChunkPos {
        self.spec_with_component(axis, 0)
    }

    /// Zero along `axis`, unchanged elsewhere.
    #[verifier::when_used_as_spec(spec_all_but_axis)]
    pub fn all_but_axis(&self, axis: Axis) -> (pos: ChunkPos)
        ensures
            pos == self.spec_all_but_axis(axis),
    {
        self.with_component(axis, 0)
    }
}

impl std::ops::Add for ChunkPos {
    type Output = ChunkPos;

    fn add(self, rhs: ChunkPos) -> (sum: ChunkPos) {
        ChunkPos { x: self.x + rhs.x, y: self.y + rhs.y, z: self.z + rhs.z }
    }
}

impl AddSpecImpl for ChunkPos {
    open spec fn obeys_add_spec() -> bool {
        true
    }

    open spec fn add_req(self, rhs: ChunkPos) -> bool {
        &&& i32::MIN <= self.x + rhs.x <= i32::MAX
        &&& i32::MIN <= self.y + rhs.y <= i32::MAX
        &&& i32::MIN <= self.z + rhs.z <= i32::MAX
    }

    open spec fn add_spec(self, rhs: ChunkPos) -> ChunkPos {
        ChunkPos {
            x: (self.x + rhs.x) as i32,
            y: (self.y + rhs.y) as i32,
            z: (self.z + rhs.z) as i32,
        }
    }
}

impl std::ops::Sub for ChunkPos {
    type Output = ChunkPos;

    fn sub(self, rhs: ChunkPos) -> (diff: ChunkPos) {
        ChunkPos { x: self.x - rhs.x, y: self.y - rhs.y, z: self.z - rhs.z }
    }
}

impl SubSpecImpl for ChunkPos {
    open spec fn obeys_sub_spec() -> bool {
        true
    }

    open spec fn sub_req(self, rhs: ChunkPos) -> bool {
        &&& i32::MIN <= self.x - rhs.x <= i32::MAX
        &&& i32::MIN <= self.y - rhs.y <= i32::MAX
        &&& i32::MIN <= self.z - rhs.z <= i32::MAX
    }

    open spec fn sub_spec(self, rhs: ChunkPos) -> ChunkPos {
        ChunkPos {
            x: (self.x - rhs.x) as i32,
            y: (self.y - rhs.y) as i32,
            z: (self.z - rhs.z) as i32,
        }
    }
}

impl std::ops::Mul<i32> for ChunkPos {
    type Output = ChunkPos;

    fn mul(self, rhs: i32) -> (product: ChunkPos) {
        ChunkPos { x: self.x * rhs, y: self.y * rhs, z: self.z * rhs }
    }
}

impl MulSpecImpl<i32> for ChunkPos {
    open spec fn obeys_mul_spec() -> bool {
        true
    }

    open spec fn mul_req(self, rhs: i32) -> bool {
        &&& i32::MIN <= self.x * rhs <= i32::MAX
        &&& i32::MIN <= self.y * rhs <= i32::MAX
        &&& i32::MIN <= self.z * rhs <= i32::MAX
    }

    open spec fn mul_spec(self, rhs: i32) -> ChunkPos {
        ChunkPos {
            x: (self.x * rhs) as i32,
            y: (self.y * rhs) as i32,
            z: (self.z * rhs) as i32,
        }
    }
}

impl std::ops::Mul<ChunkPos> for i32 {
    type Output = ChunkPos;

    fn mul(self, rhs: ChunkPos) -> (product: ChunkPos) {
        ChunkPos { x: self * rhs.x, y: self * rhs.y, z: self * rhs.z }
    }
}

impl MulSpecImpl<ChunkPos> for i32 {
    open spec fn obeys_mul_spec() -> bool {
        true
    }

    open spec fn mul_req(self, rhs: ChunkPos) -> bool {
        &&& i32::MIN <= self * rhs.x <= i32::MAX
        &&& i32::MIN <= self * rhs.y <= i32::MAX
        &&& i32::MIN <= self * rhs.z <= i32::MAX
    }

    open spec fn mul_spec(self, rhs: ChunkPos) -> ChunkPos {
        ChunkPos {
            x: (self * rhs.x) as i32,
            y: (self * rhs.y) as i32,
            z: (self * rhs.z) as i32,
        }
    }
}

impl From<BlockPos> for ChunkPos {
    /// The chunk that holds the block: each coordinate divided by the
    /// chunk size, rounding toward negative infinity.
    fn from(block_pos: BlockPos) -> (pos: ChunkPos) {
        ChunkPos {
            x: floor_div_i32(block_pos.x, 32),
            y: floor_div_i32(block_pos.y, 32),
            z: floor_div_i32(block_pos.z, 32),
        }
    }
}

impl FromSpecImpl<BlockPos> for ChunkPos {
    open spec fn obeys_from_spec() -> bool {
        true
    }

    open spec fn from_spec(block_pos: BlockPos) -> ChunkPos {
        block_pos.spec_as_chunk_pos()
    }
}

impl From<Position> for ChunkPos {
    /// The chunk that holds the position.
    fn from(position: Position) -> (pos: ChunkPos) {
        ChunkPos::from(BlockPos::from(position))
    }
}

impl FromSpecImpl<Position> for ChunkPos {
    open spec fn obeys_from_spec() -> bool {
        true
    }

    open spec fn from_spec(position: Position) -> ChunkPos {
        position.spec_as_chunk_pos()
    }
}

impl BlockPos {
    pub fn new(x: i32, y: i32, z: i32) -> (pos: BlockPos)
        ensures
            pos == (BlockPos { x, y, z }),
    {
        BlockPos { x, y, z }
    }

    /// Whether every coordinate lies in `[0, CHUNK_SIZE)`.
    pub open spec fn spec_is_chunk_local(&self) -> bool {
        &&& 0 <= self.x < 32
        &&& 0 <= self.y < 32
        &&& 0 <= self.z < 32
    }

    /// Whether every coordinate lies in `[0, CHUNK_SIZE)`.
    #[verifier::when_used_as_spec(spec_is_chunk_local)]
    pub fn is_chunk_local(&self) -> (local: bool)
        ensures
            local == self.spec_is_chunk_local(),
    {
        self.x >= 0 && self.x < 32 && self.y >= 0 && self.y < 32 && self.z >= 0 && self.z < 32
    }

    /// The chunk that holds this block: each coordinate divided by the
    /// chunk size, rounding toward negative infinity.
    pub open spec fn spec_as_chunk_pos(self) -> ChunkPos {
        ChunkPos {
            x: floor_div(self.x as int, 32) as i32,
            y: floor_div(self.y as int, 32) as i32,
            z: floor_div(self.z as int, 32) as i32,
        }
    }

    /// The chunk that holds this block.
    pub fn as_chunk_pos(self) -> (pos: ChunkPos)
        ensures
            pos == self.spec_as_chunk_pos(),
            pos.x == floor_div(self.x as int, 32),
            pos.y == floor_div(self.y as int, 32),
            pos.z == floor_div(self.z as int, 32),
    {
        ChunkPos::from(self)
    }

    /// Position of the block's minimum corner.
    pub open spec fn spec_as_position(self) -> Position {
        Position {
            x: (self.x * POSITION_UNITS) as i64,
            y: (self.y * POSITION_UNITS) as i64,
            z: (self.z * POSITION_UNITS) as i64,
        }
    }

    /// Position of the block's minimum corner.
    pub fn as_position(self) -> (pos: Position)
        ensures
            pos == self.spec_as_position(),
            pos.x == self.x * POSITION_UNITS,
            pos.y == self.y * POSITION_UNITS,
            pos.z == self.z * POSITION_UNITS,
    {
        let x: i64 = self.x as i64;
        let y: i64 = self.y as i64;
        let z: i64 = self.z as i64;
        Position { x: x * POSITION_UNITS, y: y * POSITION_UNITS, z: z * POSITION_UNITS }
    }

    /// The block's coordinates inside its chunk: each coordinate reduced
    /// modulo the chunk size into `[0, CHUNK_SIZE)`.
    pub open spec fn spec_as_chunk_local(&self) -> BlockPos {
        BlockPos {
            x: floor_mod(self.x as int, 32) as i32,
            y: floor_mod(self.y as int, 32) as i32,
            z: floor_mod(self.z as int, 32) as i32,
        }
    }

    /// The block's coordinates inside its chunk.
    pub fn as_chunk_local(&self) -> (pos: BlockPos)
        ensures
            pos == self.spec_as_chunk_local(),
            pos.spec_is_chunk_local(),
            pos.x == floor_mod(self.x as int, 32),
            pos.y == floor_mod(self.y as int, 32),
            pos.z == floor_mod(self.z as int, 32),
    {
        BlockPos {
            x: floor_mod_i32(self.x, 32),
            y: floor_mod_i32(self.y, 32),
            z: floor_mod_i32(self.z, 32),
        }
    }

    /// The chunk that holds this block, and the block's coordinates inside it.
    pub fn as_chunk_block_pos(self) -> (pair: (ChunkPos, BlockPos))
        ensures
            pair.0 == self.spec_as_chunk_pos(),
            pair.1 == self.spec_as_chunk_local(),
            pair.1.spec_is_chunk_local(),
    {
        (self.as_chunk_pos(), self.as_chunk_local())
    }

    /// The coordinates as array indices, where none of them is negative.
    pub fn as_indicies(&self) -> (indices: Option<(usize, usize, usize)>)
        ensures
            indices.is_some() <==> (self.x >= 0 && self.y >= 0 && self.z >= 0),
            indices.is_some() ==> indices.unwrap() == (self.x as usize, self.y as usize, self.z as usize),
    {
        if self.x >= 0 && self.y >= 0 && self.z >= 0 {
            Some((self.x as usize, self.y as usize, self.z as usize))
        } else {
            None
        }
    }

    /// The coordinate along `axis`.
    pub open spec fn spec_component(self, axis: Axis) -> i32 {
        match axis {
            Axis::X => self.x,
            Axis::Y => self.y,
            Axis::Z => self.z,
        }
    }

    /// The coordinate along `axis`.
    #[verifier::when_used_as_spec(spec_component)]
    pub fn component(self, axis: Axis) -> (c: i32)
        ensures
            c == self.spec_component(axis),
    {
        match axis {
            Axis::X => self.x,
            Axis::Y => self.y,
            Axis::Z => self.z,
        }
    }

    /// This position with the coordinate along `axis` replaced by `value`.
    pub open spec fn spec_with_component(self, axis: Axis, value: i32) -> BlockPos {
        match axis {
            Axis::X => BlockPos { x: value, ..self },
            Axis::Y => BlockPos { y: value, ..self },
            Axis::Z => BlockPos { z: value, ..self },
        }
    }

    /// This position with the coordinate along `axis` replaced by `value`.
    #[verifier::when_used_as_spec(spec_with_component)]
    pub fn with_component(self, axis: Axis, value: i32) -> (pos: BlockPos)
        ensures
            pos == self.spec_with_component(axis, value),
    {
        match axis {
            Axis::X => BlockPos { x: value, y: self.y, z: self.z },
            Axis::Y => BlockPos { x: self.x, y: value, z: self.z },
            Axis::Z => BlockPos { x: self.x, y: self.y, z: value },
        }
    }

    pub fn xonly(&self) -> (pos: BlockPos)
        ensures
            pos == (BlockPos { x: self.x, y: 0, z: 0 }),
    {
        BlockPos { x: self.x, y: 0, z: 0 }
    }

    pub fn yonly(&self) -> (pos: BlockPos)
        ensures
            pos == (BlockPos { x: 0, y: self.y, z: 0 }),
    {
        BlockPos { x: 0, y: self.y, z: 0 }
    }

    pub fn zonly(&self) -> (pos: BlockPos)
        ensures
            pos == (BlockPos { x: 0, y: 0, z: self.z }),
    {
        BlockPos { x: 0, y: 0, z: self.z }
    }

    pub fn xyonly(&self) -> (pos: BlockPos)
        ensures
            pos == (BlockPos { x: self.x, y: self.y, z: 0 }),
    {
        BlockPos { x: self.x, y: self.y, z: 0 }
    }

    pub fn yzonly(&self) -> (pos: BlockPos)
        ensures
            pos == (BlockPos { x: 0, y: self.y, z: self.z }),
    {
        BlockPos { x: 0, y: self.y, z: self.z }
    }

    pub fn xzonly(&self) -> (pos: BlockPos)
        ensures
            pos == (BlockPos { x: self.x, y: 0, z: self.z }),
    {
        BlockPos { x: self.x, y: 0, z: self.z }
    }

    /// Zero everywhere but along `axis`.
    pub open spec fn spec_axis_only(&self, axis: Axis) -> BlockPos {
        (BlockPos { x: 0, y: 0, z: 0 }).spec_with_component(axis, self.spec_component(axis))
    }

    /// Zero everywhere but along `axis`.
    #[verifier::when_used_as_spec(spec_axis_only)]
    pub fn axis_only(&self, axis: Axis) -> (pos: BlockPos)
        ensures
            pos == self.spec_axis_only(axis),
    {
        BlockPos::new(0, 0, 0).with_component(axis, self.component(axis))
    }

    /// Zero along `axis`, unchanged elsewhere.
    pub open spec fn spec_all_but_axis(&self, axis: Axis) -> BlockPos {
        self.spec_with_component(axis, 0)
    }

    /// Zero along `axis`, unchanged elsewhere.
    #[verifier::when_used_as_spec(spec_all_but_axis)]
    pub fn all_but_axis(&self, axis: Axis) -> (pos: BlockPos)
        ensures
            pos == self.spec_all_but_axis(axis),
    {
        self.with_component(axis, 0)
    }
}

impl std::ops::Add for BlockPos {
    type Output = BlockPos;

    fn add(self, rhs: BlockPos) -> (sum: BlockPos) {
        BlockPos { x: self.x + rhs.x, y: self.y + rhs.y, z: self.z + rhs.z }
    }
}

impl AddSpecImpl for BlockPos {
    open spec fn obeys_add_spec() -> bool {
        true
    }

    open spec fn add_req(self, rhs: BlockPos) -> bool {
        &&& i32::MIN <= self.x + rhs.x <= i32::MAX
        &&& i32::MIN <= self.y + rhs.y <= i32::MAX
        &&& i32::MIN <= self.z + rhs.z <= i32::MAX
    }

    open spec fn add_spec(self, rhs: BlockPos) -> BlockPos {
        BlockPos {
            x: (self.x + rhs.x) as i32,
            y: (self.y + rhs.y) as i32,
            z: (self.z + rhs.z) as i32,
        }
    }
}

impl std::ops::Sub for BlockPos {
    type Output = BlockPos;

    fn sub(self, rhs: BlockPos) -> (diff: BlockPos) {
        BlockPos { x: self.x - rhs.x, y: self.y - rhs.y, z: self.z - rhs.z }
    }
}

impl SubSpecImpl for BlockPos {
    open spec fn obeys_sub_spec() -> bool {
        true
    }

    open spec fn sub_req(self, rhs: BlockPos) -> bool {
        &&& i32::MIN <= self.x - rhs.x <= i32::MAX
        &&& i32::MIN <= self.y - rhs.y <= i32::MAX
        &&& i32::MIN <= self.z - rhs.z <= i32::MAX
    }

    open spec fn sub_spec(self, rhs: BlockPos) -> BlockPos {
        BlockPos {
            x: (self.x - rhs.x) as i32,
            y: (self.y - rhs.y) as i32,
            z: (self.z - rhs.z) as i32,
        }
    }
}

impl std::ops::Mul<i32> for BlockPos {
    type Output = BlockPos;

    fn mul(self, rhs: i32) -> (product: BlockPos) {
        BlockPos { x: self.x * rhs, y: self.y * rhs, z: self.z * rhs }
    }
}

impl MulSpecImpl<i32> for BlockPos {
    open spec fn obeys_mul_spec() -> bool {
        true
    }

    open spec fn mul_req(self, rhs: i32) -> bool {
        &&& i32::MIN <= self.x * rhs <= i32::MAX
        &&& i32::MIN <= self.y * rhs <= i32::MAX
        &&& i32::MIN <= self.z * rhs <= i32::MAX
    }

    open spec fn mul_spec(self, rhs: i32) -> BlockPos {
        BlockPos {
            x: (self.x * rhs) as i32,
            y: (self.y * rhs) as i32,
            z: (self.z * rhs) as i32,
        }
    }
}

impl std::ops::Mul<BlockPos> for i32 {
    type Output = BlockPos;

    fn mul(self, rhs: BlockPos) -> (product: BlockPos) {
        BlockPos { x: self * rhs.x, y: self * rhs.y, z: self * rhs.z }
    }
}

impl MulSpecImpl<BlockPos> for i32 {
    open spec fn obeys_mul_spec() -> bool {
        true
    }

    open spec fn mul_req(self, rhs: BlockPos) -> bool {
        &&& i32::MIN <= self * rhs.x <= i32::MAX
        &&& i32::MIN <= self * rhs.y <= i32::MAX
        &&& i32::MIN <= self * rhs.z <= i32::MAX
    }

    open spec fn mul_spec(self, rhs: BlockPos) -> BlockPos {
        BlockPos {
            x: (self * rhs.x) as i32,
            y: (self * rhs.y) as i32,
            z: (self * rhs.z) as i32,
        }
    }
}

/// The block coordinate that holds a position coordinate: the floor of the
/// coordinate in blocks, limited to the `i32` range.
pub open spec fn block_of_units(units: i64) -> i32 {
    clamp_i32(floor_div(units as int, POSITION_UNITS as int)) as i32
}

fn block_of_units_exec(units: i64) -> (block: i32)
    ensures
        block == block_of_units(units),
{
    let q: i64 = floor_div_i64(units, POSITION_UNITS);
    if q < i32::MIN as i64 {
        i32::MIN
    } else if q > i32::MAX as i64 {
        i32::MAX
    } else {
        q as i32
    }
}

impl From<Position> for BlockPos {
    /// The block that holds the position.
    fn from(position: Position) -> (pos: BlockPos) {
        BlockPos {
            x: block_of_units_exec(position.x),
            y: block_of_units_exec(position.y),
            z: block_of_units_exec(position.z),
        }
    }
}

impl FromSpecImpl<Position> for BlockPos {
    open spec fn obeys_from_spec() -> bool {
        true
    }

    open spec fn from_spec(position: Position) -> BlockPos {
        position.spec_as_block_pos()
    }
}

impl Position {
    /// The position at the given coordinates, in position units.
    pub fn new(x: i64, y: i64, z: i64) -> (pos: Position)
        ensures
            pos == (Position { x, y, z }),
    {
        Position { x, y, z }
    }

    /// The block that holds this position.
    pub open spec fn spec_as_block_pos(self) -> BlockPos {
        BlockPos { x: block_of_units(self.x), y: block_of_units(self.y), z: block_of_units(self.z) }
    }

    /// The block that holds this position.
    pub fn as_block_pos(self) -> (pos: BlockPos)
        ensures
            pos == self.spec_as_block_pos(),
    {
        BlockPos::from(self)
    }

    /// The chunk that holds this position.
    pub open spec fn spec_as_chunk_pos(self) -> ChunkPos {
        self.spec_as_block_pos().spec_as_chunk_pos()
    }

    /// The chunk that holds this position.
    pub fn as_chunk_pos(self) -> (pos: ChunkPos)
        ensures
            pos == self.spec_as_chunk_pos(),
    {
        ChunkPos::from(self)
    }

    pub fn xonly(&self) -> (pos: Position)
        ensures
            pos == (Position { x: self.x, y: 0, z: 0 }),
    {
        Position { x: self.x, y: 0, z: 0 }
    }

    pub fn yonly(&self) -> (pos: Position)
        ensures
            pos == (Position { x: 0, y: self.y, z: 0 }),
    {
        Position { x: 0, y: self.y, z: 0 }
    }

    pub fn zonly(&self) -> (pos: Position)
        ensures
            pos == (Position { x: 0, y: 0, z: self.z }),
    {
        Position { x: 0, y: 0, z: self.z }
    }

    pub fn xyonly(&self) -> (pos: Position)
        ensures
            pos == (Position { x: self.x, y: self.y, z: 0 }),
    {
        Position { x: self.x, y: self.y, z: 0 }
    }

    pub fn yzonly(&self) -> (pos: Position)
        ensures
            pos == (Position { x: 0, y: self.y, z: self.z }),
    {
        Position { x: 0, y: self.y, z: self.z }
    }

    pub fn xzonly(&self) -> (pos: Position)
        ensures
            pos == (Position { x: self.x, y: 0, z: self.z }),
    {
        Position { x: self.x, y: 0, z: self.z }
    }

    /// The coordinate along `axis`.
    pub open spec fn spec_component(self, axis: Axis) -> i64 {
        match axis {
            Axis::X => self.x,
            Axis::Y => self.y,
            Axis::Z => self.z,
        }
    }

    /// The coordinate along `axis`.
    #[verifier::when_used_as_spec(spec_component)]
    pub fn component(self, axis: Axis) -> (c: i64)
        ensures
            c == self.spec_component(axis),
    {
        match axis {
            Axis::X => self.x,
            Axis::Y => self.y,
            Axis::Z => self.z,
        }
    }

    /// This position with the coordinate along `axis` replaced by `value`.
    pub open spec fn spec_with_component(self, axis: Axis, value: i64) -> Position {
        match axis {
            Axis::X => Position { x: value, ..self },
            Axis::Y => Position { y: value, ..self },
            Axis::Z => Position { z: value, ..self },
        }
    }

    /// This position with the coordinate along `axis` replaced by `value`.
    #[verifier::when_used_as_spec(spec_with_component)]
    pub fn with_component(self, axis: Axis, value: i64) -> (pos: Position)
        ensures
            pos == self.spec_with_component(axis, value),
    {
        match axis {
            Axis::X => Position { x: value, y: self.y, z: self.z },
            Axis::Y => Position { x: self.x, y: value, z: self.z },
            Axis::Z => Position { x: self.x, y: self.y, z: value },
        }
    }

    /// Zero everywhere but along `axis`.
    pub open spec fn spec_axis_only(&self, axis: Axis) -> Position {
        (Position { x: 0, y: 0, z: 0 }).spec_with_component(axis, self.spec_component(axis))
    }

    /// Zero everywhere but along `axis`.
    #[verifier::when_used_as_spec(spec_axis_only)]
    pub fn axis_only(&self, axis: Axis) -> (pos: Position)
        ensures
            pos == self.spec_axis_only(axis),
    {
        Position::new(0, 0, 0).with_component(axis, self.component(axis))
    }

    /// Zero along `axis`, unchanged elsewhere.
    pub open spec fn spec_all_but_axis(&self, axis: Axis) -> Position {
        self.spec_with_component(axis, 0)
    }

    /// Zero along `axis`, unchanged elsewhere.
    #[verifier::when_used_as_spec(spec_all_but_axis)]
    pub fn all_but_axis(&self, axis: Axis) -> (pos: Position)
        ensures
            pos == self.spec_all_but_axis(axis),
    {
        self.with_component(axis, 0)
    }
}

impl std::ops::Add for Position {
    type Output = Position;

    fn add(self, rhs: Position) -> (sum: Position) {
        Position { x: self.x + rhs.x, y: self.y + rhs.y, z: self.z + rhs.z }
    }
}

impl AddSpecImpl for Position {
    open spec fn obeys_add_spec() -> bool {
        true
    }

    open spec fn add_req(self, rhs: Position) -> bool {
        &&& i64::MIN <= self.x + rhs.x <= i64::MAX
        &&& i64::MIN <= self.y + rhs.y <= i64::MAX
        &&& i64::MIN <= self.z + rhs.z <= i64::MAX
    }

    open spec fn add_spec(self, rhs: Position) -> Position {
        Position {
            x: (self.x + rhs.x) as i64,
            y: (self.y + rhs.y) as i64,
            z: (self.z + rhs.z) as i64,
        }
    }
}

impl std::ops::Sub for Position {
    type Output = Position;

    fn sub(self, rhs: Position) -> (diff: Position) {
        Position { x: self.x - rhs.x, y: self.y - rhs.y, z: self.z - rhs.z }
    }
}

impl SubSpecImpl for Position {
    open spec fn obeys_sub_spec() -> bool {
        true
    }

    open spec fn sub_req(self, rhs: Position) -> bool {
        &&& i64::MIN <= self.x - rhs.x <= i64::MAX
        &&& i64::MIN <= self.y - rhs.y <= i64::MAX
        &&& i64::MIN <= self.z - rhs.z <= i64::MAX
    }

    open spec fn sub_spec(self, rhs: Position) -> Position {
        Position {
            x: (self.x - rhs.x) as i64,
            y: (self.y - rhs.y) as i64,
            z: (self.z - rhs.z) as i64,
        }
    }
}

/// Converting a chunk coordinate to the block coordinate of its corner and
/// back gives the chunk coordinate again, for negative coordinates too.
pub proof fn lemma_chunk_block_round_trip(c: ChunkPos)
    requires
        c.in_block_range(),
    ensures
        c.spec_as_block_pos().spec_as_chunk_pos() == c,
        c.spec_as_block_pos().spec_as_chunk_local() == (BlockPos { x: 0, y: 0, z: 0 }),
{
    lemma_fundamental_div_mod_converse(c.x * 32, 32, c.x as int, 0);
    lemma_fundamental_div_mod_converse(c.y * 32, 32, c.y as int, 0);
    lemma_fundamental_div_mod_converse(c.z * 32, 32, c.z as int, 0);
}

/// The chunk-local coordinates of any block lie in `[0, CHUNK_SIZE)` on every
/// axis, and the chunk's corner plus the local coordinates is the block.
pub proof fn lemma_chunk_local_decomposition(p: BlockPos)
    ensures
        p.spec_as_chunk_local().spec_is_chunk_local(),
        p.spec_as_chunk_pos().in_block_range(),
        p.spec_as_chunk_pos().spec_as_block_pos().x + p.spec_as_chunk_local().x == p.x,
        p.spec_as_chunk_pos().spec_as_block_pos().y + p.spec_as_chunk_local().y == p.y,
        p.spec_as_chunk_pos().spec_as_block_pos().z + p.spec_as_chunk_local().z == p.z,
{
    lemma_fundamental_div_mod(p.x as int, 32);
    lemma_fundamental_div_mod(p.y as int, 32);
    lemma_fundamental_div_mod(p.z as int, 32);
}

/// What the three kinds of position have in common as vectors of three
/// coordinates.
pub trait VecExt<T>: Sized {
    /// The three coordinates, in x, y, z order.
    spec fn coordinates(&self) -> (T, T, T);

    /// The vector that `f` makes of this one, coordinate by coordinate.
    fn map<F: Fn(T) -> T>(&self, f: F) -> (mapped: Self)
        requires
            f.requires((self.coordinates().0,)),
            f.requires((self.coordinates().1,)),
            f.requires((self.coordinates().2,)),
        ensures
            f.ensures((self.coordinates().0,), mapped.coordinates().0),
            f.ensures((self.coordinates().1,), mapped.coordinates().1),
            f.ensures((self.coordinates().2,), mapped.coordinates().2),
    ;

    /// The coordinates of the unit vector along `axis`.
    spec fn unit_coordinates(axis: Axis) -> (T, T, T);

    /// The unit vector along `axis`.
    fn axis(axis: Axis) -> (unit: Self)
        ensures
            unit.coordinates() == Self::unit_coordinates(axis),
    ;
}

impl VecExt<i32> for ChunkPos {
    open spec fn coordinates(&self) -> (i32, i32, i32) {
        (self.x, self.y, self.z)
    }

    fn map<F: Fn(i32) -> i32>(&self, f: F) -> (mapped: ChunkPos) {
        ChunkPos { x: f(self.x), y: f(self.y), z: f(self.z) }
    }

    open spec fn unit_coordinates(axis: Axis) -> (i32, i32, i32) {
        match axis {
            Axis::X => (1, 0, 0),
            Axis::Y => (0, 1, 0),
            Axis::Z => (0, 0, 1),
        }
    }

    fn axis(axis: Axis) -> (unit: ChunkPos) {
        ChunkPos::new(0, 0, 0).with_component(axis, 1)
    }
}

impl VecExt<i32> for BlockPos {
    open spec fn coordinates(&self) -> (i32, i32, i32) {
        (self.x, self.y, self.z)
    }

    fn map<F: Fn(i32) -> i32>(&self, f: F) -> (mapped: BlockPos) {
        BlockPos { x: f(self.x), y: f(self.y), z: f(self.z) }
    }

    open spec fn unit_coordinates(axis: Axis) -> (i32, i32, i32) {
        match axis {
            Axis::X => (1, 0, 0),
            Axis::Y => (0, 1, 0),
            Axis::Z => (0, 0, 1),
        }
    }

    fn axis(axis: Axis) -> (unit: BlockPos) {
        BlockPos::new(0, 0, 0).with_component(axis, 1)
    }
}

impl VecExt<i64> for Position {
    open spec fn coordinates(&self) -> (i64, i64, i64) {
        (self.x, self.y, self.z)
    }

    fn map<F: Fn(i64) -> i64>(&self, f: F) -> (mapped: Position) {
        Position { x: f(self.x), y: f(self.y), z: f(self.z) }
    }

    open spec fn unit_coordinates(axis: Axis) -> (i64, i64, i64) {
        match axis {
            Axis::X => (POSITION_UNITS, 0, 0),
            Axis::Y => (0, POSITION_UNITS, 0),
            Axis::Z => (0, 0, POSITION_UNITS),
        }
    }

    fn axis(axis: Axis) -> (unit: Position) {
        Position::new(0, 0, 0).with_component(axis, POSITION_UNITS)
    }
}

/// The quotient of `a` by `b`, rounded toward zero.
pub open spec fn truncated_div(a: int, b: int) -> int {
    if a >= 0 && b > 0 {
        a / b
    } else if a >= 0 {
        -(a / (-b))
    } else if b > 0 {
        -((-a) / b)
    } else {
        (-a) / (-b)
    }
}

/// The quotient of `a` by `b`, rounded toward zero. The divisor must not
/// be 0, and the quotient must fit in `i32`.
pub fn truncated_div_i32(a: i32, b: i32) -> (q: i32)
    requires
        b != 0,
        !(a == i32::MIN && b == -1),
    ensures
        q == truncated_div(a as int, b as int),
{
    let wide_a: i64 = a as i64;
    let wide_b: i64 = b as i64;
    let size_a: i64 = if wide_a < 0 {
        -wide_a
    } else {
        wide_a
    };
    let size_b: i64 = if wide_b < 0 {
        -wide_b
    } else {
        wide_b
    };
    let size_q: i64 = size_a / size_b;
    assert(0 <= size_q <= size_a) by (nonlinear_arith)
        requires
            size_q == size_a / size_b,
            size_a >= 0,
            size_b >= 1,
    ;
    proof {
        if size_b >= 2 {
            assert(size_q <= 0x4000_0000) by (nonlinear_arith)
                requires
                    size_q == size_a / size_b,
                    0 <= size_a <= 0x8000_0000,
                    size_b >= 2,
            ;
        }
    }
    if (wide_a < 0) == (wide_b < 0) {
        size_q as i32
    } else {
        (-size_q) as i32
    }
}

impl std::ops::Div<i32> for ChunkPos {
    type Output = ChunkPos;

    fn div(self, rhs: i32) -> (quotient: ChunkPos) {
        ChunkPos {
            x: truncated_div_i32(self.x, rhs),
            y: truncated_div_i32(self.y, rhs),
            z: truncated_div_i32(self.z, rhs),
        }
    }
}

impl DivSpecImpl<i32> for ChunkPos {
    open spec fn obeys_div_spec() -> bool {
        true
    }

    open spec fn div_req(self, rhs: i32) -> bool {
        &&& rhs != 0
        &&& rhs == -1 ==> self.x != i32::MIN && self.y != i32::MIN && self.z != i32::MIN
    }

    open spec fn div_spec(self, rhs: i32) -> ChunkPos {
        ChunkPos {
            x: truncated_div(self.x as int, rhs as int) as i32,
            y: truncated_div(self.y as int, rhs as int) as i32,
            z: truncated_div(self.z as int, rhs as int) as i32,
        }
    }
}

impl std::ops::Div<i32> for BlockPos {
    type Output = BlockPos;

    fn div(self, rhs: i32) -> (quotient: BlockPos) {
        BlockPos {
            x: truncated_div_i32(self.x, rhs),
            y: truncated_div_i32(self.y, rhs),
            z: truncated_div_i32(self.z, rhs),
        }
    }
}

impl DivSpecImpl<i32> for BlockPos {
    open spec fn obeys_div_spec() -> bool {
        true
    }

    open spec fn div_req(self, rhs: i32) -> bool {
        &&& rhs != 0
        &&& rhs == -1 ==> self.x != i32::MIN && self.y != i32::MIN && self.z != i32::MIN
    }

    open spec fn div_spec(self, rhs: i32) -> BlockPos {
        BlockPos {
            x: truncated_div(self.x as int, rhs as int) as i32,
            y: truncated_div(self.y as int, rhs as int) as i32,
            z: truncated_div(self.z as int, rhs as int) as i32,
        }
    }
}

} // verus!
