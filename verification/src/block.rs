//! Block kinds, block faces and the textured quads that faces are drawn with.

use vstd::prelude::*;
use vstd::std_specs::convert::FromSpecImpl;

use crate::types::{Axis, BlockPos, Position, POSITION_UNITS};

verus! {

/// One of the six axis-aligned faces of a block.
#[derive(Debug, Clone, Copy, PartialEq, Eq, Structural)]
pub enum BlockFace {
    XPos,
    XNeg,
    YPos,
    YNeg,
    ZPos,
    ZNeg,
}

impl BlockFace {
    /// Walks over all six faces, in the order of their indices.
    pub fn iter() -> (faces: BlockFaceIter)
        ensures
            faces.0 == Some(BlockFace::XPos),
            faces.remaining() == BlockFace::all(),
    {
        proof {
            assert(remaining_from(Some(BlockFace::XPos)) =~= BlockFace::all()) by {
                reveal_with_fuel(remaining_from, 8);
            }
        }
        BlockFaceIter(Some(BlockFace::XPos))
    }

    /// All six faces, in the order of their indices.
    pub open spec fn all() -> Seq<BlockFace> {
        seq![
            BlockFace::XPos,
            BlockFace::XNeg,
            BlockFace::YPos,
            BlockFace::YNeg,
            BlockFace::ZPos,
            BlockFace::ZNeg,
        ]
    }

    /// The face on `axis` that looks toward larger coordinates if `positive`,
    /// toward smaller ones otherwise.
    pub open spec fn spec_from_axis(axis: Axis, positive: bool) -> BlockFace {
        match axis {
            Axis::X => if positive { BlockFace::XPos } else { BlockFace::XNeg },
            Axis::Y => if positive { BlockFace::YPos } else { BlockFace::YNeg },
            Axis::Z => if positive { BlockFace::ZPos } else { BlockFace::ZNeg },
        }
    }

    #[verifier::when_used_as_spec(spec_from_axis)]
    pub fn from_axis(axis: Axis, positive: bool) -> (face: BlockFace)
        ensures
            face == BlockFace::spec_from_axis(axis, positive),
            face.spec_axis() == axis,
            face.spec_is_positive_face() == positive,
    {
        match axis {
            Axis::X => if positive { BlockFace::XPos } else { BlockFace::XNeg },
            Axis::Y => if positive { BlockFace::YPos } else { BlockFace::YNeg },
            Axis::Z => if positive { BlockFace::ZPos } else { BlockFace::ZNeg },
        }
    }

    /// The axis that the face is perpendicular to.
    pub open spec fn spec_axis(&self) -> Axis {
        match self {
            BlockFace::XPos | BlockFace::XNeg => Axis::X,
            BlockFace::YPos | BlockFace::YNeg => Axis::Y,
            BlockFace::ZPos | BlockFace::ZNeg => Axis::Z,
        }
    }

    /// The axis that the face is perpendicular to.
    #[verifier::when_used_as_spec(spec_axis)]
    pub fn axis(&self) -> (axis: Axis)
        ensures
            axis == self.spec_axis(),
    {
        match self {
            BlockFace::XPos | BlockFace::XNeg => Axis::X,
            BlockFace::YPos | BlockFace::YNeg => Axis::Y,
            BlockFace::ZPos | BlockFace::ZNeg => Axis::Z,
        }
    }

    /// The step from a block to the block that touches this face: the unit
    /// vector along the face's outward normal.
    pub open spec fn spec_block_pos_offset(&self) -> BlockPos {
        match self {
            BlockFace::XPos => BlockPos { x: 1, y: 0, z: 0 },
            BlockFace::XNeg => BlockPos { x: -1i32, y: 0, z: 0 },
            BlockFace::YPos => BlockPos { x: 0, y: 1, z: 0 },
            BlockFace::YNeg => BlockPos { x: 0, y: -1i32, z: 0 },
            BlockFace::ZPos => BlockPos { x: 0, y: 0, z: 1 },
            BlockFace::ZNeg => BlockPos { x: 0, y: 0, z: -1i32 },
        }
    }

    #[verifier::when_used_as_spec(spec_block_pos_offset)]
    pub fn block_pos_offset(&self) -> (offset: BlockPos)
        ensures
            offset == self.spec_block_pos_offset(),
    {
        match self {
            BlockFace::XPos => BlockPos::new(1, 0, 0),
            BlockFace::XNeg => BlockPos::new(-1, 0, 0),
            BlockFace::YPos => BlockPos::new(0, 1, 0),
            BlockFace::YNeg => BlockPos::new(0, -1, 0),
            BlockFace::ZPos => BlockPos::new(0, 0, 1),
            BlockFace::ZNeg => BlockPos::new(0, 0, -1),
        }
    }

    pub open spec fn spec_is_positive_face(&self) -> bool {
        matches!(self, BlockFace::XPos | BlockFace::YPos | BlockFace::ZPos)
    }

    #[verifier::when_used_as_spec(spec_is_positive_face)]
    pub fn is_positive_face(&self) -> (positive: bool)
        ensures
            positive == self.spec_is_positive_face(),
    {
        matches!(self, BlockFace::XPos | BlockFace::YPos | BlockFace::ZPos)
    }

    pub open spec fn spec_is_negative_face(&self) -> bool {
        matches!(self, BlockFace::XNeg | BlockFace::YNeg | BlockFace::ZNeg)
    }

    #[verifier::when_used_as_spec(spec_is_negative_face)]
    pub fn is_negative_face(&self) -> (negative: bool)
        ensures
            negative == self.spec_is_negative_face(),
            negative == !self.spec_is_positive_face(),
    {
        matches!(self, BlockFace::XNeg | BlockFace::YNeg | BlockFace::ZNeg)
    }

    /// Index of the face among the six, in `[0, 6)`.
    pub open spec fn spec_index(self) -> usize {
        match self {
            BlockFace::XPos => 0,
            BlockFace::XNeg => 1,
            BlockFace::YPos => 2,
            BlockFace::YNeg => 3,
            BlockFace::ZPos => 4,
            BlockFace::ZNeg => 5,
        }
    }

    /// Index of the face among the six, in `[0, 6)`.
    #[verifier::when_used_as_spec(spec_index)]
    pub fn index(self) -> (i: usize)
        ensures
            i == self.spec_index(),
            i < 6,
            BlockFace::all()[i as int] == self,
    {
        match self {
            BlockFace::XPos => 0,
            BlockFace::XNeg => 1,
            BlockFace::YPos => 2,
            BlockFace::YNeg => 3,
            BlockFace::ZPos => 4,
            BlockFace::ZNeg => 5,
        }
    }
}

impl From<BlockFace> for usize {
    fn from(face: BlockFace) -> (i: usize) {
        face.index()
    }
}

impl FromSpecImpl<BlockFace> for usize {
    open spec fn obeys_from_spec() -> bool {
        true
    }

    open spec fn from_spec(face: BlockFace) -> usize {
        face.spec_index()
    }
}

impl BlockPos {
    /// The coordinate along the axis that `face` is perpendicular to.
    pub open spec fn spec_get_face_component(&self, face: BlockFace) -> i32 {
        self.spec_component(face.spec_axis())
    }

    /// The coordinate along the axis that `face` is perpendicular to.
    #[verifier::when_used_as_spec(spec_get_face_component)]
    pub fn get_face_component(&self, face: BlockFace) -> (c: i32)
        ensures
            c == self.spec_get_face_component(face),
    {
        match face {
            BlockFace::XPos | BlockFace::XNeg => self.x,
            BlockFace::YPos | BlockFace::YNeg => self.y,
            BlockFace::ZPos | BlockFace::ZNeg => self.z,
        }
    }
}

/// The faces that a walk still has to hand out, given the face it stands at.
pub open spec fn remaining_from(at: Option<BlockFace>) -> Seq<BlockFace>
    decreases
        (match at {
            Some(face) => 6 - face.spec_index(),
            None => 0,
        }),
{
    match at {
        None => Seq::empty(),
        Some(face) => seq![face] + remaining_from(face_after(face)),
    }
}

/// The face that follows `face` in index order, if any.
pub open spec fn face_after(face: BlockFace) -> Option<BlockFace> {
    match face {
        BlockFace::XPos => Some(BlockFace::XNeg),
        BlockFace::XNeg => Some(BlockFace::YPos),
        BlockFace::YPos => Some(BlockFace::YNeg),
        BlockFace::YNeg => Some(BlockFace::ZPos),
        BlockFace::ZPos => Some(BlockFace::ZNeg),
        BlockFace::ZNeg => None,
    }
}

/// A walk over the block faces; it holds the face that comes next.
pub struct BlockFaceIter(pub Option<BlockFace>);

impl BlockFaceIter {
    /// The faces still to come, in order.
    pub open spec fn remaining(&self) -> Seq<BlockFace> {
        remaining_from(self.0)
    }

    /// Hands out the next face, or `None` once all six have been handed
    /// out; after that it returns `None` forever.
    pub fn next(&mut self) -> (face: Option<BlockFace>)
        ensures
            face == old(self).0,
            face.is_none() ==> final(self).0.is_none() && old(self).remaining().len() == 0,
            face.is_some() ==> final(self).0 == face_after(face.unwrap()),
            face.is_some() ==> old(self).remaining() == seq![face.unwrap()] + final(self).remaining(),
    {
        match self.0 {
            None => None,
            Some(BlockFace::XPos) => {
                self.0 = Some(BlockFace::XNeg);
                Some(BlockFace::XPos)
            },
            Some(BlockFace::XNeg) => {
                self.0 = Some(BlockFace::YPos);
                Some(BlockFace::XNeg)
            },
            Some(BlockFace::YPos) => {
                self.0 = Some(BlockFace::YNeg);
                Some(BlockFace::YPos)
            },
            Some(BlockFace::YNeg) => {
                self.0 = Some(BlockFace::ZPos);
                Some(BlockFace::YNeg)
            },
            Some(BlockFace::ZPos) => {
                self.0 = Some(BlockFace::ZNeg);
                Some(BlockFace::ZPos)
            },
            Some(BlockFace::ZNeg) => {
                self.0 = None;
                Some(BlockFace::ZNeg)
            },
        }
    }
}

/// Index of a block kind's texture in the texture array.
pub type TextureIndex = i32;

/// Occlusion levels at the four corners of a quad.
#[derive(Debug, Clone, Copy, PartialEq, Eq, Structural)]
pub struct OcclusionCorners {
    pub tl: u8,
    pub tr: u8,
    pub bl: u8,
    pub br: u8,
}

impl OcclusionCorners {
    /// Whether all four levels are valid occlusion levels, `0` to `3`.
    pub open spec fn valid(&self) -> bool {
        self.tl <= 3 && self.tr <= 3 && self.bl <= 3 && self.br <= 3
    }

    pub fn pos_corner(&self) -> (level: u8)
        ensures
            level == self.tr,
    {
        self.tr
    }

    pub fn neg_corner(&self) -> (level: u8)
        ensures
            level == self.bl,
    {
        self.bl
    }

    pub fn xpos_yneg_corner(&self) -> (level: u8)
        ensures
            level == self.br,
    {
        self.br
    }

    pub fn xneg_ypos_corner(&self) -> (level: u8)
        ensures
            level == self.tl,
    {
        self.tl
    }
}

/// Brightness, in percent, of a vertex with the given occlusion level.
pub open spec fn occlusion_brightness(occlusion_level: u8) -> u8 {
    if occlusion_level == 0 {
        100
    } else if occlusion_level == 1 {
        80
    } else if occlusion_level == 2 {
        60
    } else {
        40
    }
}

/// One corner of a block face.
#[derive(Debug, Clone, Copy, PartialEq, Eq)]
pub struct BlockVertex {
    /// Where the corner lies.
    pub position: Position,
    /// Unit vector along the outward normal of the face.
    pub normal: BlockPos,
    /// Brightness per colour channel in percent; the texture colour is
    /// multiplied by it.
    pub color: [u8; 3],
    pub texture_index: TextureIndex,
}

impl BlockVertex {
    /// Whether this is the vertex that [`BlockVertex::new`] makes of the arguments.
    pub open spec fn is_new(
        &self,
        position: Position,
        normal: BlockPos,
        texture_index: TextureIndex,
        occlusion_level: u8,
    ) -> bool {
        &&& self.position == position
        &&& self.normal == normal
        &&& self.texture_index == texture_index
        &&& self.color@ == seq![
            occlusion_brightness(occlusion_level),
            occlusion_brightness(occlusion_level),
            occlusion_brightness(occlusion_level),
        ]
    }

    /// A vertex shaded by its occlusion level, which must be `0` to `3`:
    /// full brightness at `0`, then 80, 60 and 40 percent.
    pub fn new(position: Position, normal: BlockPos, texture_index: TextureIndex, occlusion_level: u8) -> (vertex:
        BlockVertex)
        requires
            occlusion_level <= 3,
        ensures
            vertex.is_new(position, normal, texture_index, occlusion_level),
    {
        let shade: u8 = match occlusion_level {
            0 => 100,
            1 => 80,
            2 => 60,
            _ => 40,
        };
        let color: [u8; 3] = [shade, shade, shade];
        assert(color@ =~= seq![shade, shade, shade]);
        BlockVertex { position, normal, color, texture_index }
    }
}

/// Offset, in blocks, from the top-left corner block to the top-left vertex
/// of a quad on `face`.
pub open spec fn tl_vertex_offset(face: BlockFace) -> BlockPos {
    match face {
        BlockFace::XPos => BlockPos { x: 1, y: 1, z: 0 },
        BlockFace::XNeg => BlockPos { x: 0, y: 1, z: 1 },
        BlockFace::YPos => BlockPos { x: 0, y: 1, z: 1 },
        BlockFace::YNeg => BlockPos { x: 0, y: 0, z: 0 },
        BlockFace::ZPos => BlockPos { x: 1, y: 1, z: 1 },
        BlockFace::ZNeg => BlockPos { x: 0, y: 1, z: 0 },
    }
}

/// Offset, in blocks, from the bottom-right corner block to the bottom-right
/// vertex of a quad on `face`.
pub open spec fn br_vertex_offset(face: BlockFace) -> BlockPos {
    match face {
        BlockFace::XPos => BlockPos { x: 1, y: 0, z: 1 },
        BlockFace::XNeg => BlockPos { x: 0, y: 0, z: 0 },
        BlockFace::YPos => BlockPos { x: 1, y: 1, z: 0 },
        BlockFace::YNeg => BlockPos { x: 1, y: 0, z: 1 },
        BlockFace::ZPos => BlockPos { x: 0, y: 0, z: 1 },
        BlockFace::ZNeg => BlockPos { x: 1, y: 0, z: 0 },
    }
}

/// The position `offset` blocks away from the minimum corner of `block`.
pub open spec fn corner_position(block: BlockPos, offset: BlockPos) -> Position {
    Position {
        x: ((block.x + offset.x) * POSITION_UNITS) as i64,
        y: ((block.y + offset.y) * POSITION_UNITS) as i64,
        z: ((block.z + offset.z) * POSITION_UNITS) as i64,
    }
}

/// Bottom-left vertex position of the quad on `face` with the given
/// top-left and bottom-right vertex positions.
pub open spec fn bl_vertex_position(face: BlockFace, tl: Position, br: Position) -> Position {
    match face {
        BlockFace::XPos | BlockFace::XNeg => Position { x: tl.x, y: br.y, z: tl.z },
        BlockFace::YPos | BlockFace::YNeg => Position { x: tl.x, y: tl.y, z: br.z },
        BlockFace::ZPos | BlockFace::ZNeg => Position { x: tl.x, y: br.y, z: tl.z },
    }
}

/// Top-right vertex position of the quad on `face` with the given top-left
/// and bottom-right vertex positions.
pub open spec fn tr_vertex_position(face: BlockFace, tl: Position, br: Position) -> Position {
    match face {
        BlockFace::XPos | BlockFace::XNeg => Position { x: tl.x, y: tl.y, z: br.z },
        BlockFace::YPos | BlockFace::YNeg => Position { x: br.x, y: tl.y, z: tl.z },
        BlockFace::ZPos | BlockFace::ZNeg => Position { x: br.x, y: tl.y, z: tl.z },
    }
}

/// A quad covering one or more block faces. Seen from the front, the four
/// vertices run clockwise: top-left, bottom-left, bottom-right, top-right.
/// All four lie in one plane.
#[derive(Debug, Clone, Copy, PartialEq, Eq)]
pub struct BlockFaceMesh(pub [BlockVertex; 4]);

impl BlockFaceMesh {
    /// Whether this is the quad that [`BlockFaceMesh::from_corners`] makes
    /// of the arguments.
    pub open spec fn is_from_corners(
        &self,
        face: BlockFace,
        texture_index: TextureIndex,
        tl_corner_block: BlockPos,
        br_corner_block: BlockPos,
        occlusion_data: OcclusionCorners,
    ) -> bool {
        let tl = corner_position(tl_corner_block, tl_vertex_offset(face));
        let br = corner_position(br_corner_block, br_vertex_offset(face));
        let bl = bl_vertex_position(face, tl, br);
        let tr = tr_vertex_position(face, tl, br);
        let normal = face.spec_block_pos_offset();
        &&& self.0[0].is_new(tl, normal, texture_index, occlusion_data.tl)
        &&& self.0[1].is_new(bl, normal, texture_index, occlusion_data.bl)
        &&& self.0[2].is_new(br, normal, texture_index, occlusion_data.br)
        &&& self.0[3].is_new(tr, normal, texture_index, occlusion_data.tr)
    }

    /// Whether the four vertices have the same coordinate along `axis`.
    pub open spec fn coplanar(&self, axis: Axis) -> bool {
        &&& self.0[1].position.spec_component(axis) == self.0[0].position.spec_component(axis)
        &&& self.0[2].position.spec_component(axis) == self.0[0].position.spec_component(axis)
        &&& self.0[3].position.spec_component(axis) == self.0[0].position.spec_component(axis)
    }

    /// The quad on `face` that spans from the outer corner of the top-left
    /// block to the outer corner of the bottom-right block, both named as
    /// seen from the front of the face. The occlusion levels must be valid.
    pub fn from_corners(
        face: BlockFace,
        texture_index: TextureIndex,
        tl_corner_block: BlockPos,
        br_corner_block: BlockPos,
        occlusion_data: OcclusionCorners,
    ) -> (mesh: BlockFaceMesh)
        requires
            occlusion_data.valid(),
        ensures
            mesh.is_from_corners(face, texture_index, tl_corner_block, br_corner_block, occlusion_data),
            tl_corner_block.spec_get_face_component(face) == br_corner_block.spec_get_face_component(face)
                ==> mesh.coplanar(face.spec_axis()),
    {
        let tl_corner_pos = tl_corner_block.as_position();
        let br_corner_pos = br_corner_block.as_position();
        let one: i64 = POSITION_UNITS;

        let (tl_corner, br_corner) = match face {
            BlockFace::XPos => (
                tl_corner_pos + Position::new(one, one, 0),
                br_corner_pos + Position::new(one, 0, one),
            ),
            BlockFace::XNeg => (
                tl_corner_pos + Position::new(0, one, one),
                br_corner_pos + Position::new(0, 0, 0),
            ),
            BlockFace::YPos => (
                tl_corner_pos + Position::new(0, one, one),
                br_corner_pos + Position::new(one, one, 0),
            ),
            BlockFace::YNeg => (
                tl_corner_pos + Position::new(0, 0, 0),
                br_corner_pos + Position::new(one, 0, one),
            ),
            BlockFace::ZPos => (
                tl_corner_pos + Position::new(one, one, one),
                br_corner_pos + Position::new(0, 0, one),
            ),
            BlockFace::ZNeg => (
                tl_corner_pos + Position::new(0, one, 0),
                br_corner_pos + Position::new(one, 0, 0),
            ),
        };
        assert(tl_corner == corner_position(tl_corner_block, tl_vertex_offset(face)));
        assert(br_corner == corner_position(br_corner_block, br_vertex_offset(face)));

        let (bl_corner, tr_corner) = match face {
            BlockFace::XPos | BlockFace::XNeg => (
                Position::new(tl_corner.x, br_corner.y, tl_corner.z),
                Position::new(tl_corner.x, tl_corner.y, br_corner.z),
            ),
            BlockFace::YPos | BlockFace::YNeg => (
                Position::new(tl_corner.x, tl_corner.y, br_corner.z),
                Position::new(br_corner.x, tl_corner.y, tl_corner.z),
            ),
            BlockFace::ZPos | BlockFace::ZNeg => (
                Position::new(tl_corner.x, br_corner.y, tl_corner.z),
                Position::new(br_corner.x, tl_corner.y, tl_corner.z),
            ),
        };

        let normal = match face {
            BlockFace::XPos => BlockPos::new(1, 0, 0),
            BlockFace::XNeg => BlockPos::new(-1, 0, 0),
            BlockFace::YPos => BlockPos::new(0, 1, 0),
            BlockFace::YNeg => BlockPos::new(0, -1, 0),
            BlockFace::ZPos => BlockPos::new(0, 0, 1),
            BlockFace::ZNeg => BlockPos::new(0, 0, -1),
        };

        BlockFaceMesh(
            [
                BlockVertex::new(tl_corner, normal, texture_index, occlusion_data.tl),
                BlockVertex::new(bl_corner, normal, texture_index, occlusion_data.bl),
                BlockVertex::new(br_corner, normal, texture_index, occlusion_data.br),
                BlockVertex::new(tr_corner, normal, texture_index, occlusion_data.tr),
            ],
        )
    }

    /// Top-left corner block, seen from the front of `face`, of the box
    /// between `neg` and `pos`.
    pub open spec fn cube_tl_corner(face: BlockFace, neg: BlockPos, pos: BlockPos) -> BlockPos {
        match face {
            BlockFace::XPos => BlockPos { x: pos.x, y: pos.y, z: neg.z },
            BlockFace::XNeg => BlockPos { x: neg.x, y: pos.y, z: pos.z },
            BlockFace::YPos => BlockPos { x: neg.x, y: pos.y, z: pos.z },
            BlockFace::YNeg => BlockPos { x: neg.x, y: neg.y, z: neg.z },
            BlockFace::ZPos => BlockPos { x: pos.x, y: pos.y, z: pos.z },
            BlockFace::ZNeg => BlockPos { x: neg.x, y: pos.y, z: neg.z },
        }
    }

    /// Bottom-right corner block, seen from the front of `face`, of the box
    /// between `neg` and `pos`.
    pub open spec fn cube_br_corner(face: BlockFace, neg: BlockPos, pos: BlockPos) -> BlockPos {
        match face {
            BlockFace::XPos => BlockPos { x: pos.x, y: neg.y, z: pos.z },
            BlockFace::XNeg => BlockPos { x: neg.x, y: neg.y, z: neg.z },
            BlockFace::YPos => BlockPos { x: pos.x, y: pos.y, z: neg.z },
            BlockFace::YNeg => BlockPos { x: pos.x, y: neg.y, z: pos.z },
            BlockFace::ZPos => BlockPos { x: neg.x, y: neg.y, z: pos.z },
            BlockFace::ZNeg => BlockPos { x: pos.x, y: neg.y, z: neg.z },
        }
    }

    /// The occlusion levels of a slice cell, given by its position in the
    /// slice's own two axes, renamed as seen from the front of `face`.
    pub open spec fn cube_occlusion(face: BlockFace, data: OcclusionCorners) -> OcclusionCorners {
        match face {
            BlockFace::XPos => OcclusionCorners { tl: data.br, tr: data.tr, bl: data.bl, br: data.tl },
            BlockFace::XNeg => OcclusionCorners { tl: data.tr, tr: data.br, bl: data.tl, br: data.bl },
            BlockFace::YPos => OcclusionCorners { tl: data.tl, tr: data.tr, bl: data.bl, br: data.br },
            BlockFace::YNeg => OcclusionCorners { tl: data.bl, tr: data.br, bl: data.tl, br: data.tr },
            BlockFace::ZPos => OcclusionCorners { tl: data.tr, tr: data.tl, bl: data.br, br: data.bl },
            BlockFace::ZNeg => OcclusionCorners { tl: data.tl, tr: data.tr, bl: data.bl, br: data.br },
        }
    }

    /// Whether this is the quad that [`BlockFaceMesh::from_cube_corners`]
    /// makes of the arguments.
    pub open spec fn is_from_cube_corners(
        &self,
        face: BlockFace,
        texture_index: TextureIndex,
        neg_corner_block: BlockPos,
        pos_corner_block: BlockPos,
        occlusion_data: OcclusionCorners,
    ) -> bool {
        self.is_from_corners(
            face,
            texture_index,
            BlockFaceMesh::cube_tl_corner(face, neg_corner_block, pos_corner_block),
            BlockFaceMesh::cube_br_corner(face, neg_corner_block, pos_corner_block),
            BlockFaceMesh::cube_occlusion(face, occlusion_data),
        )
    }

    /// The quad on `face` of the box of blocks between `neg_corner_block`
    /// and `pos_corner_block`, its corners with the smallest and the largest
    /// coordinates. `occlusion_data` names the corners by the slice's own
    /// two axes: `bl` at the smallest coordinates, `tr` at the largest. The
    /// quad lies on the positive side of the box for a positive face, on the
    /// negative side otherwise, and its four vertices are coplanar.
    pub fn from_cube_corners(
        face: BlockFace,
        texture_index: TextureIndex,
        neg_corner_block: BlockPos,
        pos_corner_block: BlockPos,
        occlusion_data: OcclusionCorners,
    ) -> (mesh: BlockFaceMesh)
        requires
            occlusion_data.valid(),
        ensures
            mesh.is_from_cube_corners(face, texture_index, neg_corner_block, pos_corner_block, occlusion_data),
            mesh.coplanar(face.spec_axis()),
    {
        let (tl_corner, br_corner, occlusion_data) = match face {
            BlockFace::XPos => (
                BlockPos::new(pos_corner_block.x, pos_corner_block.y, neg_corner_block.z),
                BlockPos::new(pos_corner_block.x, neg_corner_block.y, pos_corner_block.z),
                OcclusionCorners {
                    tl: occlusion_data.xpos_yneg_corner(),
                    tr: occlusion_data.pos_corner(),
                    bl: occlusion_data.neg_corner(),
                    br: occlusion_data.xneg_ypos_corner(),
                },
            ),
            BlockFace::XNeg => (
                BlockPos::new(neg_corner_block.x, pos_corner_block.y, pos_corner_block.z),
                BlockPos::new(neg_corner_block.x, neg_corner_block.y, neg_corner_block.z),
                OcclusionCorners {
                    tl: occlusion_data.pos_corner(),
                    tr: occlusion_data.xpos_yneg_corner(),
                    bl: occlusion_data.xneg_ypos_corner(),
                    br: occlusion_data.neg_corner(),
                },
            ),
            BlockFace::YPos => (
                BlockPos::new(neg_corner_block.x, pos_corner_block.y, pos_corner_block.z),
                BlockPos::new(pos_corner_block.x, pos_corner_block.y, neg_corner_block.z),
                OcclusionCorners {
                    tl: occlusion_data.xneg_ypos_corner(),
                    tr: occlusion_data.pos_corner(),
                    bl: occlusion_data.neg_corner(),
                    br: occlusion_data.xpos_yneg_corner(),
                },
            ),
            BlockFace::YNeg => (
                BlockPos::new(neg_corner_block.x, neg_corner_block.y, neg_corner_block.z),
                BlockPos::new(pos_corner_block.x, neg_corner_block.y, pos_corner_block.z),
                OcclusionCorners {
                    tl: occlusion_data.neg_corner(),
                    tr: occlusion_data.xpos_yneg_corner(),
                    bl: occlusion_data.xneg_ypos_corner(),
                    br: occlusion_data.pos_corner(),
                },
            ),
            BlockFace::ZPos => (
                BlockPos::new(pos_corner_block.x, pos_corner_block.y, pos_corner_block.z),
                BlockPos::new(neg_corner_block.x, neg_corner_block.y, pos_corner_block.z),
                OcclusionCorners {
                    tl: occlusion_data.pos_corner(),
                    tr: occlusion_data.xneg_ypos_corner(),
                    bl: occlusion_data.xpos_yneg_corner(),
                    br: occlusion_data.neg_corner(),
                },
            ),
            BlockFace::ZNeg => (
                BlockPos::new(neg_corner_block.x, pos_corner_block.y, neg_corner_block.z),
                BlockPos::new(pos_corner_block.x, neg_corner_block.y, neg_corner_block.z),
                OcclusionCorners {
                    tl: occlusion_data.xneg_ypos_corner(),
                    tr: occlusion_data.pos_corner(),
                    bl: occlusion_data.neg_corner(),
                    br: occlusion_data.xpos_yneg_corner(),
                },
            ),
        };

        BlockFaceMesh::from_corners(face, texture_index, tl_corner, br_corner, occlusion_data)
    }

    /// Indices into the four vertices that draw the quad as two triangles.
    pub fn indicies() -> (indices: [u32; 6])
        ensures
            indices@ == seq![0u32, 2, 1, 2, 0, 3],
    {
        let indices: [u32; 6] = [0, 2, 1, 2, 0, 3];
        assert(indices@ =~= seq![0u32, 2, 1, 2, 0, 3]);
        indices
    }
}

/// What every block kind can be asked.
pub trait BlockTrait: Send + Sync {
    /// The kind's name.
    spec fn spec_name(&self) -> Seq<char>;

    /// Whether blocks behind this one stay visible and unshaded.
    spec fn spec_is_translucent(&self) -> bool;

    fn name(&self) -> (name: &str)
        ensures
            name@ == self.spec_name(),
    ;

    fn is_translucent(&self) -> (translucent: bool)
        ensures
            translucent == self.spec_is_translucent(),
    ;
}

/// Empty space: no faces, and everything behind it is visible.
#[derive(Debug, Clone, Copy, PartialEq, Eq, Structural)]
pub struct Air {}

impl Air {
    pub fn new() -> (block: Air)
        ensures
            block == (Air {  }),
    {
        Air {  }
    }
}

impl BlockTrait for Air {
    open spec fn spec_name(&self) -> Seq<char> {
        "air"@
    }

    open spec fn spec_is_translucent(&self) -> bool {
        true
    }

    fn name(&self) -> (name: &str) {
        "air"
    }

    fn is_translucent(&self) -> (translucent: bool) {
        true
    }
}

/// A block for trying things out. It counts as translucent, so that
/// the faces around it are always drawn.
#[derive(Debug, Clone, Copy, PartialEq, Eq, Structural)]
pub struct TestBlock {}

impl TestBlock {
    pub fn new() -> (block: TestBlock)
        ensures
            block == (TestBlock {  }),
    {
        TestBlock {  }
    }
}

impl BlockTrait for TestBlock {
    open spec fn spec_name(&self) -> Seq<char> {
        "test block"@
    }

    open spec fn spec_is_translucent(&self) -> bool {
        true
    }

    fn name(&self) -> (name: &str) {
        "test block"
    }

    fn is_translucent(&self) -> (translucent: bool) {
        true
    }
}

/// Plain dirt.
#[derive(Debug, Clone, Copy, PartialEq, Eq, Structural)]
pub struct Dirt {}

impl Dirt {
    pub fn new() -> (block: Dirt)
        ensures
            block == (Dirt {  }),
    {
        Dirt {  }
    }
}

impl BlockTrait for Dirt {
    open spec fn spec_name(&self) -> Seq<char> {
        "dirt"@
    }

    open spec fn spec_is_translucent(&self) -> bool {
        false
    }

    fn name(&self) -> (name: &str) {
        "dirt"
    }

    fn is_translucent(&self) -> (translucent: bool) {
        false
    }
}

/// Dirt with grass on top.
#[derive(Debug, Clone, Copy, PartialEq, Eq, Structural)]
pub struct Grass {}

impl Grass {
    pub fn new() -> (block: Grass)
        ensures
            block == (Grass {  }),
    {
        Grass {  }
    }
}

impl BlockTrait for Grass {
    open spec fn spec_name(&self) -> Seq<char> {
        "grass"@
    }

    open spec fn spec_is_translucent(&self) -> bool {
        false
    }

    fn name(&self) -> (name: &str) {
        "grass"
    }

    fn is_translucent(&self) -> (translucent: bool) {
        false
    }
}

/// Solid stone.
#[derive(Debug, Clone, Copy, PartialEq, Eq, Structural)]
pub struct Stone {}

impl Stone {
    pub fn new() -> (block: Stone)
        ensures
            block == (Stone {  }),
    {
        Stone {  }
    }
}

impl BlockTrait for Stone {
    open spec fn spec_name(&self) -> Seq<char> {
        "stone"@
    }

    open spec fn spec_is_translucent(&self) -> bool {
        false
    }

    fn name(&self) -> (name: &str) {
        "stone"
    }

    fn is_translucent(&self) -> (translucent: bool) {
        false
    }
}

/// Dirt with stones in it.
#[derive(Debug, Clone, Copy, PartialEq, Eq, Structural)]
pub struct RockyDirt {}

impl RockyDirt {
    pub fn new() -> (block: RockyDirt)
        ensures
            block == (RockyDirt {  }),
    {
        RockyDirt {  }
    }
}

impl BlockTrait for RockyDirt {
    open spec fn spec_name(&self) -> Seq<char> {
        "rocky dirt"@
    }

    open spec fn spec_is_translucent(&self) -> bool {
        false
    }

    fn name(&self) -> (name: &str) {
        "rocky dirt"
    }

    fn is_translucent(&self) -> (translucent: bool) {
        false
    }
}

/// The kind of a block, without its state. The textured kinds come first,
/// in the order of their textures.
#[derive(Debug, Clone, Copy, PartialEq, Eq, Structural)]
pub enum BlockType {
    TestBlock,
    Dirt,
    Grass,
    Stone,
    RockyDirt,
    Air,
}

impl BlockType {
    /// Position of the kind in the list of kinds; for a textured kind, the
    /// index of its texture.
    pub open spec fn spec_index(self) -> u8 {
        match self {
            BlockType::TestBlock => 0,
            BlockType::Dirt => 1,
            BlockType::Grass => 2,
            BlockType::Stone => 3,
            BlockType::RockyDirt => 4,
            BlockType::Air => 5,
        }
    }

    #[verifier::when_used_as_spec(spec_index)]
    pub fn index(self) -> (i: u8)
        ensures
            i == self.spec_index(),
    {
        match self {
            BlockType::TestBlock => 0,
            BlockType::Dirt => 1,
            BlockType::Grass => 2,
            BlockType::Stone => 3,
            BlockType::RockyDirt => 4,
            BlockType::Air => 5,
        }
    }
}

/// Number of textured block kinds.
pub const TEXTURED_KINDS: u8 = 5;

/// A block of the world: one of a closed set of kinds.
#[derive(Debug, Clone, Copy, PartialEq, Eq, Structural)]
pub enum Block {
    Air(Air),
    TestBlock(TestBlock),
    Dirt(Dirt),
    Grass(Grass),
    Stone(Stone),
    RockyDirt(RockyDirt),
}

impl BlockTrait for Block {
    open spec fn spec_name(&self) -> Seq<char> {
        match self {
            Block::Air(b) => b.spec_name(),
            Block::TestBlock(b) => b.spec_name(),
            Block::Dirt(b) => b.spec_name(),
            Block::Grass(b) => b.spec_name(),
            Block::Stone(b) => b.spec_name(),
            Block::RockyDirt(b) => b.spec_name(),
        }
    }

    open spec fn spec_is_translucent(&self) -> bool {
        match self {
            Block::Air(b) => b.spec_is_translucent(),
            Block::TestBlock(b) => b.spec_is_translucent(),
            Block::Dirt(b) => b.spec_is_translucent(),
            Block::Grass(b) => b.spec_is_translucent(),
            Block::Stone(b) => b.spec_is_translucent(),
            Block::RockyDirt(b) => b.spec_is_translucent(),
        }
    }

    fn name(&self) -> (name: &str) {
        match self {
            Block::Air(b) => b.name(),
            Block::TestBlock(b) => b.name(),
            Block::Dirt(b) => b.name(),
            Block::Grass(b) => b.name(),
            Block::Stone(b) => b.name(),
            Block::RockyDirt(b) => b.name(),
        }
    }

    fn is_translucent(&self) -> (translucent: bool) {
        match self {
            Block::Air(b) => b.is_translucent(),
            Block::TestBlock(b) => b.is_translucent(),
            Block::Dirt(b) => b.is_translucent(),
            Block::Grass(b) => b.is_translucent(),
            Block::Stone(b) => b.is_translucent(),
            Block::RockyDirt(b) => b.is_translucent(),
        }
    }
}

impl Block {
    pub open spec fn spec_block_type(&self) -> BlockType {
        match self {
            Block::Air(_) => BlockType::Air,
            Block::TestBlock(_) => BlockType::TestBlock,
            Block::Dirt(_) => BlockType::Dirt,
            Block::Grass(_) => BlockType::Grass,
            Block::Stone(_) => BlockType::Stone,
            Block::RockyDirt(_) => BlockType::RockyDirt,
        }
    }

    /// The kind of the block.
    #[verifier::when_used_as_spec(spec_block_type)]
    pub fn block_type(&self) -> (kind: BlockType)
        ensures
            kind == self.spec_block_type(),
    {
        match self {
            Block::Air(_) => BlockType::Air,
            Block::TestBlock(_) => BlockType::TestBlock,
            Block::Dirt(_) => BlockType::Dirt,
            Block::Grass(_) => BlockType::Grass,
            Block::Stone(_) => BlockType::Stone,
            Block::RockyDirt(_) => BlockType::RockyDirt,
        }
    }

    pub open spec fn spec_is_air(&self) -> bool {
        self is Air
    }

    #[verifier::when_used_as_spec(spec_is_air)]
    pub fn is_air(&self) -> (air: bool)
        ensures
            air == self.spec_is_air(),
    {
        matches!(self, Block::Air(_))
    }

    /// Index of the block's texture: the position of its kind among the
    /// textured kinds, or `None` for a kind without a texture.
    pub open spec fn spec_texture_index(&self) -> Option<TextureIndex> {
        if self.spec_block_type().spec_index() >= TEXTURED_KINDS {
            None
        } else {
            Some(self.spec_block_type().spec_index() as i32)
        }
    }

    /// Index of the block's texture, or `None` for a kind without one. Air
    /// is the only such kind.
    #[verifier::when_used_as_spec(spec_texture_index)]
    pub fn texture_index(&self) -> (index: Option<TextureIndex>)
        ensures
            index == self.spec_texture_index(),
            index.is_none() <==> self.spec_is_air(),
            index.is_some() ==> 0 <= index.unwrap() < spec_num_textures(),
    {
        let block_type: u8 = self.block_type().index();
        if block_type >= TEXTURED_KINDS {
            None
        } else {
            Some(block_type as i32)
        }
    }
}

impl From<Air> for Block {
    fn from(block: Air) -> (wrapped: Block) {
        Block::Air(block)
    }
}

impl FromSpecImpl<Air> for Block {
    open spec fn obeys_from_spec() -> bool {
        true
    }

    open spec fn from_spec(block: Air) -> Block {
        Block::Air(block)
    }
}

impl From<TestBlock> for Block {
    fn from(block: TestBlock) -> (wrapped: Block) {
        Block::TestBlock(block)
    }
}

impl FromSpecImpl<TestBlock> for Block {
    open spec fn obeys_from_spec() -> bool {
        true
    }

    open spec fn from_spec(block: TestBlock) -> Block {
        Block::TestBlock(block)
    }
}

impl From<Dirt> for Block {
    fn from(block: Dirt) -> (wrapped: Block) {
        Block::Dirt(block)
    }
}

impl FromSpecImpl<Dirt> for Block {
    open spec fn obeys_from_spec() -> bool {
        true
    }

    open spec fn from_spec(block: Dirt) -> Block {
        Block::Dirt(block)
    }
}

impl From<Grass> for Block {
    fn from(block: Grass) -> (wrapped: Block) {
        Block::Grass(block)
    }
}

impl FromSpecImpl<Grass> for Block {
    open spec fn obeys_from_spec() -> bool {
        true
    }

    open spec fn from_spec(block: Grass) -> Block {
        Block::Grass(block)
    }
}

impl From<Stone> for Block {
    fn from(block: Stone) -> (wrapped: Block) {
        Block::Stone(block)
    }
}

impl FromSpecImpl<Stone> for Block {
    open spec fn obeys_from_spec() -> bool {
        true
    }

    open spec fn from_spec(block: Stone) -> Block {
        Block::Stone(block)
    }
}

impl From<RockyDirt> for Block {
    fn from(block: RockyDirt) -> (wrapped: Block) {
        Block::RockyDirt(block)
    }
}

impl FromSpecImpl<RockyDirt> for Block {
    open spec fn obeys_from_spec() -> bool {
        true
    }

    open spec fn from_spec(block: RockyDirt) -> Block {
        Block::RockyDirt(block)
    }
}

pub open spec fn spec_num_textures() -> u32 {
    TEXTURED_KINDS as u32
}

/// Number of textures in the texture array: one for each textured kind.
#[verifier::when_used_as_spec(spec_num_textures)]
pub fn num_textures() -> (count: u32)
    ensures
        count == spec_num_textures(),
        count == 5,
{
    TEXTURED_KINDS as u32
}

} // verus!
