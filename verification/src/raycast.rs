//! Casting a ray through the blocks of the world.
//!
//! The ray starts at a position and runs along a direction, both in
//! position units. It is followed from block to block: at each step it
//! enters the neighbouring block whose boundary it crosses first. The time
//! at which the ray crosses its next boundary along an axis is a fraction,
//! the distance to that boundary over the speed along the axis. Fractions
//! are compared exactly, by cross multiplication.

use vstd::prelude::*;

use crate::chunk::LoadedChunk;
use crate::chunk_map::ChunkKey;
use crate::chunk_store::block_at;
use crate::types::{floor_mod, floor_mod_i64, Axis, BlockPos, Position, POSITION_UNITS};
use crate::world::World;

verus! {

/// How many steps along each axis a ray has made.
pub struct RaySteps {
    pub x: int,
    pub y: int,
    pub z: int,
}

/// The sign of `d`: -1, 0 or 1.
pub open spec fn sign(d: int) -> int {
    if d > 0 {
        1
    } else if d < 0 {
        -1
    } else {
        0
    }
}

/// The distance, in position units, from a coordinate `start` to the
/// boundary that a ray with speed `d` along the axis crosses after `steps`
/// earlier crossings. The speed must not be 0.
pub open spec fn crossing_distance(start: int, d: int, steps: int) -> int {
    (if d > 0 {
        POSITION_UNITS - floor_mod(start, POSITION_UNITS as int)
    } else {
        floor_mod(start, POSITION_UNITS as int)
    }) + steps * POSITION_UNITS
}

/// Whether a ray crosses the boundary at distance `first` with speed
/// `first_speed` before it crosses the boundary at distance `second` with
/// speed `second_speed`. A ray with speed 0 along an axis never crosses a
/// boundary on that axis.
pub open spec fn crosses_before(first: int, first_speed: int, second: int, second_speed: int) -> bool {
    if first_speed == 0 {
        false
    } else if second_speed == 0 {
        true
    } else {
        first * sign(second_speed) * second_speed < second * sign(first_speed) * first_speed
    }
}

/// The axis along which a ray that has made `steps` makes its next step:
/// the axis of the boundary that it crosses first; of two boundaries that
/// it crosses at once the one on the later axis.
pub open spec fn next_axis(ray_start: Position, ray: Position, steps: RaySteps) -> Axis {
    let x = crossing_distance(ray_start.x as int, ray.x as int, steps.x);
    let y = crossing_distance(ray_start.y as int, ray.y as int, steps.y);
    let z = crossing_distance(ray_start.z as int, ray.z as int, steps.z);
    if crosses_before(x, ray.x as int, y, ray.y as int) && crosses_before(x, ray.x as int, z, ray.z as int) {
        Axis::X
    } else if crosses_before(y, ray.y as int, z, ray.z as int) {
        Axis::Y
    } else {
        Axis::Z
    }
}

/// How many steps along each axis a ray has made after `n` steps.
pub open spec fn ray_steps(ray_start: Position, ray: Position, n: nat) -> RaySteps
    decreases n,
{
    if n == 0 {
        RaySteps { x: 0, y: 0, z: 0 }
    } else {
        let before = ray_steps(ray_start, ray, (n - 1) as nat);
        match next_axis(ray_start, ray, before) {
            Axis::X => RaySteps { x: before.x + 1, ..before },
            Axis::Y => RaySteps { y: before.y + 1, ..before },
            Axis::Z => RaySteps { z: before.z + 1, ..before },
        }
    }
}

/// Whether the block that a ray is in after it has made `steps` has
/// coordinates that fit in `i32`.
pub open spec fn ray_in_range(ray_start: Position, ray: Position, steps: RaySteps) -> bool {
    let start = ray_start.spec_as_block_pos();
    &&& i32::MIN <= start.x + sign(ray.x as int) * steps.x <= i32::MAX
    &&& i32::MIN <= start.y + sign(ray.y as int) * steps.y <= i32::MAX
    &&& i32::MIN <= start.z + sign(ray.z as int) * steps.z <= i32::MAX
}

/// The block that a ray is in after it has made `steps`.
pub open spec fn ray_block(ray_start: Position, ray: Position, steps: RaySteps) -> BlockPos {
    let start = ray_start.spec_as_block_pos();
    BlockPos {
        x: (start.x + sign(ray.x as int) * steps.x) as i32,
        y: (start.y + sign(ray.y as int) * steps.y) as i32,
        z: (start.z + sign(ray.z as int) * steps.z) as i32,
    }
}

/// Whether a block that lies `steps` away from the block where the ray
/// starts is within `max_length` position units of it, measured from block
/// to block in a straight line.
pub open spec fn ray_in_reach(steps: RaySteps, max_length: int) -> bool {
    max_length >= 0 && (steps.x * steps.x + steps.y * steps.y + steps.z * steps.z) * (POSITION_UNITS
        * POSITION_UNITS) <= max_length * max_length
}

/// Whether a ray goes on after its step number `n`: the block that it has
/// entered is in reach, its chunk is loaded, and it holds air.
pub open spec fn ray_passes(
    chunks: Map<ChunkKey, LoadedChunk>,
    ray_start: Position,
    ray: Position,
    max_length: int,
    n: nat,
) -> bool {
    let steps = ray_steps(ray_start, ray, n);
    &&& ray_in_range(ray_start, ray, steps)
    &&& ray_in_reach(steps, max_length)
    &&& match block_at(chunks, ray_block(ray_start, ray, steps)) {
        Some(block) => block.spec_is_air(),
        None => false,
    }
}

/// What a ray that ends with its step number `n` has hit: the block that
/// it has entered, if that block is in reach, loaded and not air.
pub open spec fn ray_hit(
    chunks: Map<ChunkKey, LoadedChunk>,
    ray_start: Position,
    ray: Position,
    max_length: int,
    n: nat,
) -> Option<BlockPos> {
    let steps = ray_steps(ray_start, ray, n);
    if ray_in_range(ray_start, ray, steps) && ray_in_reach(steps, max_length) {
        match block_at(chunks, ray_block(ray_start, ray, steps)) {
            Some(block) => if block.spec_is_air() {
                None
            } else {
                Some(ray_block(ray_start, ray, steps))
            },
            None => None,
        }
    } else {
        None
    }
}

/// A ray with a direction never steps along an axis on which it does not
/// move.
pub proof fn lemma_next_axis_moves(ray_start: Position, ray: Position, steps: RaySteps)
    requires
        ray.x != 0 || ray.y != 0 || ray.z != 0,
    ensures
        ray.spec_component(next_axis(ray_start, ray, steps)) != 0,
{
}

/// The sign of `d` as a step between blocks.
fn sign_of(d: i64) -> (s: i32)
    ensures
        s == sign(d as int),
{
    if d > 0 {
        1
    } else if d < 0 {
        -1
    } else {
        0
    }
}

/// The distance to the next boundary.
fn crossing_distance_of(start: i64, d: i64, steps: i64) -> (distance: i128)
    requires
        0 <= steps <= 0x1_0000_0000,
    ensures
        distance == crossing_distance(start as int, d as int, steps as int),
        0 <= distance <= 0x1_0001_0000_0000,
{
    let offset = floor_mod_i64(start, POSITION_UNITS);
    let first: i128 = if d > 0 {
        (POSITION_UNITS - offset) as i128
    } else {
        offset as i128
    };
    first + (steps as i128) * (POSITION_UNITS as i128)
}

/// Whether the first boundary is crossed before the second.
fn crosses_before_of(first: i128, first_speed: i64, second: i128, second_speed: i64) -> (before: bool)
    requires
        0 <= first <= 0x1_0001_0000_0000,
        0 <= second <= 0x1_0001_0000_0000,
    ensures
        before == crosses_before(first as int, first_speed as int, second as int, second_speed as int),
{
    if first_speed == 0 {
        false
    } else if second_speed == 0 {
        true
    } else {
        let first_abs: i128 = if first_speed < 0 {
            -(first_speed as i128)
        } else {
            first_speed as i128
        };
        let second_abs: i128 = if second_speed < 0 {
            -(second_speed as i128)
        } else {
            second_speed as i128
        };
        assert(first_abs == sign(first_speed as int) * first_speed) by (nonlinear_arith)
            requires
                first_abs == (if first_speed < 0 {
                    -(first_speed as int)
                } else {
                    first_speed as int
                }),
        ;
        assert(second_abs == sign(second_speed as int) * second_speed) by (nonlinear_arith)
            requires
                second_abs == (if second_speed < 0 {
                    -(second_speed as int)
                } else {
                    second_speed as int
                }),
        ;
        assert(0 <= first * second_abs <= 0x1_0001_0000_0000 * 0x8000_0000_0000_0000) by (nonlinear_arith)
            requires
                0 <= first <= 0x1_0001_0000_0000,
                0 <= second_abs <= 0x8000_0000_0000_0000,
        ;
        assert(0 <= second * first_abs <= 0x1_0001_0000_0000 * 0x8000_0000_0000_0000) by (nonlinear_arith)
            requires
                0 <= second <= 0x1_0001_0000_0000,
                0 <= first_abs <= 0x8000_0000_0000_0000,
        ;
        assert(first * sign(second_speed as int) * second_speed == first * second_abs) by (nonlinear_arith)
            requires
                second_abs == sign(second_speed as int) * second_speed,
        ;
        assert(second * sign(first_speed as int) * first_speed == second * first_abs) by (nonlinear_arith)
            requires
                first_abs == sign(first_speed as int) * first_speed,
        ;
        first * second_abs < second * first_abs
    }
}

/// Whether a block that lies so many steps away is in reach.
fn in_reach_of(x: i64, y: i64, z: i64, max_length: i64) -> (reach: bool)
    requires
        0 <= x <= 0x1_0000_0000,
        0 <= y <= 0x1_0000_0000,
        0 <= z <= 0x1_0000_0000,
    ensures
        reach == ray_in_reach(RaySteps { x: x as int, y: y as int, z: z as int }, max_length as int),
{
    if max_length < 0 {
        return false;
    }
    let x: i128 = x as i128;
    let y: i128 = y as i128;
    let z: i128 = z as i128;
    let limit: i128 = max_length as i128;
    let unit: i128 = POSITION_UNITS as i128;
    assert(0 <= x * x <= 0x1_0000_0000 * 0x1_0000_0000) by (nonlinear_arith)
        requires
            0 <= x <= 0x1_0000_0000,
    ;
    assert(0 <= y * y <= 0x1_0000_0000 * 0x1_0000_0000) by (nonlinear_arith)
        requires
            0 <= y <= 0x1_0000_0000,
    ;
    assert(0 <= z * z <= 0x1_0000_0000 * 0x1_0000_0000) by (nonlinear_arith)
        requires
            0 <= z <= 0x1_0000_0000,
    ;
    let squares: i128 = x * x + y * y + z * z;
    assert(0 <= limit * limit <= 0x8000_0000_0000_0000 * 0x8000_0000_0000_0000) by (nonlinear_arith)
        requires
            0 <= limit <= 0x8000_0000_0000_0000,
    ;
    assert(unit * unit == 0x1_0000_0000) by (nonlinear_arith)
        requires
            unit == 65536,
    ;
    assert(0 <= squares * (unit * unit) <= 3 * 0x1_0000_0000 * 0x1_0000_0000 * 0x1_0000_0000) by (nonlinear_arith)
        requires
            0 <= squares <= 3 * 0x1_0000_0000 * 0x1_0000_0000,
            unit * unit == 0x1_0000_0000,
    ;
    squares * (unit * unit) <= limit * limit
}

impl World {
    /// Casts a ray from `ray_start` along `ray`, which must not be the zero
    /// vector, and returns the first block on its way that is not air.
    ///
    /// The ray is followed from block to block, starting with the block
    /// after the one that it starts in. It ends, without a hit, where it
    /// enters a block that lies further than `max_length` position units
    /// from the block where it started, a block of a chunk that is not
    /// loaded, or a block whose coordinates do not fit in `i32`.
    pub fn block_raycast(&self, ray_start: Position, ray: Position, max_length: i64) -> (hit: Option<BlockPos>)
        requires
            ray.x != 0 || ray.y != 0 || ray.z != 0,
        ensures
            exists|n: nat|
                n >= 1 && !ray_passes(self.loaded(), ray_start, ray, max_length as int, n) && hit == ray_hit(
                    self.loaded(),
                    ray_start,
                    ray,
                    max_length as int,
                    n,
                ) && forall|j: nat|
                    1 <= j < n ==> #[trigger] ray_passes(self.loaded(), ray_start, ray, max_length as int, j),
    {
        let ghost chunks = self.loaded();
        let block_start_pos = ray_start.as_block_pos();
        let mut block_pos = block_start_pos;

        let direction_x = sign_of(ray.x);
        let direction_y = sign_of(ray.y);
        let direction_z = sign_of(ray.z);

        // how many boundaries the ray has crossed along each axis
        let mut steps_x: i64 = 0;
        let mut steps_y: i64 = 0;
        let mut steps_z: i64 = 0;
        let ghost mut n: nat = 0;

        loop
            invariant
                ray.x != 0 || ray.y != 0 || ray.z != 0,
                chunks == self.loaded(),
                block_start_pos == ray_start.spec_as_block_pos(),
                direction_x == sign(ray.x as int),
                direction_y == sign(ray.y as int),
                direction_z == sign(ray.z as int),
                0 <= steps_x < 0x1_0000_0000,
                0 <= steps_y < 0x1_0000_0000,
                0 <= steps_z < 0x1_0000_0000,
                ray.x == 0 ==> steps_x == 0,
                ray.y == 0 ==> steps_y == 0,
                ray.z == 0 ==> steps_z == 0,
                n == steps_x + steps_y + steps_z,
                ray_steps(ray_start, ray, n) == (RaySteps {
                    x: steps_x as int,
                    y: steps_y as int,
                    z: steps_z as int,
                }),
                ray_in_range(ray_start, ray, ray_steps(ray_start, ray, n)),
                block_pos == ray_block(ray_start, ray, ray_steps(ray_start, ray, n)),
                forall|j: nat| 1 <= j <= n ==> #[trigger] ray_passes(chunks, ray_start, ray, max_length as int, j),
            decreases 3 * 0x1_0000_0000 - n,
        {
            let ghost before = RaySteps { x: steps_x as int, y: steps_y as int, z: steps_z as int };
            let next_x = crossing_distance_of(ray_start.x, ray.x, steps_x);
            let next_y = crossing_distance_of(ray_start.y, ray.y, steps_y);
            let next_z = crossing_distance_of(ray_start.z, ray.z, steps_z);

            let axis = if crosses_before_of(next_x, ray.x, next_y, ray.y) && crosses_before_of(
                next_x,
                ray.x,
                next_z,
                ray.z,
            ) {
                Axis::X
            } else if crosses_before_of(next_y, ray.y, next_z, ray.z) {
                Axis::Y
            } else {
                Axis::Z
            };
            proof {
                assert(axis == next_axis(ray_start, ray, before));
                lemma_next_axis_moves(ray_start, ray, before);
            }
            let direction = match axis {
                Axis::X => direction_x,
                Axis::Y => direction_y,
                Axis::Z => direction_z,
            };
            let coordinate = block_pos.component(axis);
            let ghost after = ray_steps(ray_start, ray, n + 1);
            proof {
                assert(after == match axis {
                    Axis::X => RaySteps { x: before.x + 1, ..before },
                    Axis::Y => RaySteps { y: before.y + 1, ..before },
                    Axis::Z => RaySteps { z: before.z + 1, ..before },
                });
                assert(sign(ray.x as int) * (steps_x + 1) == sign(ray.x as int) * steps_x + sign(ray.x as int))
                    by (nonlinear_arith);
                assert(sign(ray.y as int) * (steps_y + 1) == sign(ray.y as int) * steps_y + sign(ray.y as int))
                    by (nonlinear_arith);
                assert(sign(ray.z as int) * (steps_z + 1) == sign(ray.z as int) * steps_z + sign(ray.z as int))
                    by (nonlinear_arith);
            }
            if (direction > 0 && coordinate == i32::MAX) || (direction < 0 && coordinate == i32::MIN) {
                // the ray leaves the blocks that can be named
                proof {
                    assert(!ray_in_range(ray_start, ray, after));
                    assert(!ray_passes(chunks, ray_start, ray, max_length as int, n + 1));
                    assert(ray_hit(chunks, ray_start, ray, max_length as int, n + 1).is_none());
                }
                return None;
            }
            block_pos = block_pos.with_component(axis, coordinate + direction);
            match axis {
                Axis::X => {
                    steps_x += 1;
                },
                Axis::Y => {
                    steps_y += 1;
                },
                Axis::Z => {
                    steps_z += 1;
                },
            }
            proof {
                assert(after == (RaySteps { x: steps_x as int, y: steps_y as int, z: steps_z as int }));
                assert(ray_in_range(ray_start, ray, after));
                assert(block_pos == ray_block(ray_start, ray, after));
                lemma_steps_bounded(block_start_pos.x as int, sign(ray.x as int), steps_x as int);
                lemma_steps_bounded(block_start_pos.y as int, sign(ray.y as int), steps_y as int);
                lemma_steps_bounded(block_start_pos.z as int, sign(ray.z as int), steps_z as int);
            }
            if !in_reach_of(steps_x, steps_y, steps_z, max_length) {
                proof {
                    assert(!ray_passes(chunks, ray_start, ray, max_length as int, n + 1));
                    assert(ray_hit(chunks, ray_start, ray, max_length as int, n + 1).is_none());
                }
                return None;
            }
            match self.with_block(block_pos) {
                None => {
                    // the ray leaves the loaded chunks
                    proof {
                        assert(!ray_passes(chunks, ray_start, ray, max_length as int, n + 1));
                        assert(ray_hit(chunks, ray_start, ray, max_length as int, n + 1).is_none());
                    }
                    return None;
                },
                Some(block) => {
                    if !block.is_air() {
                        proof {
                            assert(!ray_passes(chunks, ray_start, ray, max_length as int, n + 1));
                            assert(ray_hit(chunks, ray_start, ray, max_length as int, n + 1) == Some(block_pos));
                        }
                        return Some(block_pos);
                    }
                    proof {
                        assert(ray_passes(chunks, ray_start, ray, max_length as int, n + 1));
                    }
                },
            }
            proof {
                n = n + 1;
            }
        }
    }
}

/// A coordinate that has moved by `steps` in one direction and still fits
/// in `i32` has moved less than `2^32` steps.
pub proof fn lemma_steps_bounded(start: int, direction: int, steps: int)
    requires
        i32::MIN <= start <= i32::MAX,
        direction == 1 || direction == -1 || (direction == 0 && steps == 0),
        0 <= steps,
        i32::MIN <= start + direction * steps <= i32::MAX,
    ensures
        steps < 0x1_0000_0000,
{
    assert(direction * steps == steps || direction * steps == -steps || steps == 0) by (nonlinear_arith)
        requires
            direction == 1 || direction == -1 || (direction == 0 && steps == 0),
    ;
}

} // verus!
