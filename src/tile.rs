use vstd::prelude::*;
use vstd::arithmetic::power2::{pow2, lemma_pow2_adds, lemma_pow2_strictly_increases, lemma2_to64};
use vstd::bits::lemma_u32_shl_is_mul;

verus! {

/// The largest level of detail whose tile count still fits an `i32`.
pub const MAX_LOD: i32 = 30;

/// Calculates the number of tiles per cube face edge at a level of detail.
pub fn tile_count(lod: i32) -> (r: i32)
    requires
        0 <= lod <= MAX_LOD,
    ensures
        r == pow2(lod as nat),
        r > 0,
{
    proof {
        lemma2_to64();
        if lod < MAX_LOD {
            lemma_pow2_strictly_increases(lod as nat, 30);
        }
        lemma_u32_shl_is_mul(1, lod as u32);
    }
    (1u32 << (lod as u32)) as i32
}

/// Why a tile cannot be placed relative to the origin tile with integer offsets.
#[derive(Clone, Copy, Debug, PartialEq, Eq, Structural)]
pub enum ApproximationError {
    /// The tile is coarser than the origin tile, so no left shift aligns the two grids.
    LodBelowOrigin,
}

/// Describes a quadtree tile of the cube sphere.
#[derive(Clone, Copy, Debug, PartialEq, Eq, Structural)]
pub struct Tile {
    /// The tile column (at the lod of this tile) from the top-left corner of the cube face.
    pub x: i32,
    /// The tile row (at the lod of this tile) from the top-left corner of the cube face.
    pub y: i32,
    /// The level of detail of the tile.
    pub lod: i32,
    /// The cube face that the tile lies within.
    pub side: u32,
}

/// The integer offset of a tile from the origin tile, counted in tiles of the tile's own lod:
/// the origin index is shifted to that lod before it is subtracted.
pub open spec fn shifted_offset(xy: int, origin_xy: int, lod: int, origin_lod: int) -> int {
    xy - origin_xy * pow2((lod - origin_lod) as nat)
}

impl Tile {
    /// A tile is well formed when it names a face, a supported lod and a cell of that lod's grid.
    pub open spec fn wf(self) -> bool {
        &&& self.side < 6
        &&& 0 <= self.lod <= MAX_LOD
        &&& 0 <= self.x < pow2(self.lod as nat)
        &&& 0 <= self.y < pow2(self.lod as nat)
    }

    pub fn new(side: u32, lod: i32, x: i32, y: i32) -> (r: Self)
        ensures
            r == (Tile { x, y, lod, side }),
    {
        Tile { x, y, lod, side }
    }

    /// Tells whether the tile names a face, a supported lod and a cell of that lod's grid.
    pub fn is_valid(self) -> (r: bool)
        ensures
            r == self.wf(),
    {
        if self.side >= 6 || self.lod < 0 || self.lod > MAX_LOD {
            return false;
        }
        let count = tile_count(self.lod);
        0 <= self.x && self.x < count && 0 <= self.y && self.y < count
    }

    /// Calculates the number of tiles per face edge for a certain lod.
    pub fn tile_count(lod: i32) -> (r: i32)
        requires
            0 <= lod <= MAX_LOD,
        ensures
            r == pow2(lod as nat),
    {
        tile_count(lod)
    }

    /// The offset, counted in tiles of this tile's lod, between this tile and the origin tile
    /// at `origin_lod`: the origin index shifted left by the lod difference, subtracted from this
    /// tile's index.
    /// Only integer arithmetic is used, so no precision is lost however fine the lod.
    pub fn offset_from_origin(self, origin_x: i32, origin_y: i32, origin_lod: i32) -> (r: Result<
        (i64, i64),
        ApproximationError,
    >)
        requires
            self.wf(),
            0 <= origin_lod <= MAX_LOD,
            0 <= origin_x <= pow2(origin_lod as nat),
            0 <= origin_y <= pow2(origin_lod as nat),
        ensures
            self.lod < origin_lod ==> r == Err::<(i64, i64), ApproximationError>(
                ApproximationError::LodBelowOrigin,
            ),
            self.lod >= origin_lod ==> (r matches Ok((dx, dy)) && dx == shifted_offset(
                self.x as int,
                origin_x as int,
                self.lod as int,
                origin_lod as int,
            ) && dy == shifted_offset(self.y as int, origin_y as int, self.lod as int, origin_lod as int)),
    {
        if self.lod < origin_lod {
            return Err(ApproximationError::LodBelowOrigin);
        }
        let difference = self.lod - origin_lod;
        let scale = tile_count(difference) as i64;
        proof {
            lemma2_to64();
            if self.lod < MAX_LOD {
                lemma_pow2_strictly_increases(self.lod as nat, 30);
            }
            if origin_lod < MAX_LOD {
                lemma_pow2_strictly_increases(origin_lod as nat, 30);
            }
            if difference < MAX_LOD {
                lemma_pow2_strictly_increases(difference as nat, 30);
            }
        }
        proof {
            assert(origin_x * scale <= 0x4000_0000_0000_0000) by (nonlinear_arith)
                requires
                    0 <= origin_x <= 0x4000_0000,
                    0 < scale <= 0x4000_0000,
            ;
            assert(origin_y * scale <= 0x4000_0000_0000_0000) by (nonlinear_arith)
                requires
                    0 <= origin_y <= 0x4000_0000,
                    0 < scale <= 0x4000_0000,
            ;
            assert(0 <= origin_x * scale) by (nonlinear_arith)
                requires
                    0 <= origin_x,
                    0 < scale,
            ;
            assert(0 <= origin_y * scale) by (nonlinear_arith)
                requires
                    0 <= origin_y,
                    0 < scale,
            ;
        }
        let dx = self.x as i64 - origin_x as i64 * scale;
        let dy = self.y as i64 - origin_y as i64 * scale;
        Ok((dx, dy))
    }
}

/// The integer offset measures the same distance as the exact relative coordinate: an offset of
/// `shifted_offset` tiles at `lod` equals the tile's position `xy / 2^lod` minus the origin's
/// position `origin_xy / 2^origin_lod`, written here with both sides multiplied by `2^lod`.
/// For a tile inside the origin tile's footprint the offset lies in `[0, 2^(lod - origin_lod))`.
pub proof fn lemma_offset_is_relative_position(xy: int, origin_xy: int, lod: int, origin_lod: int)
    requires
        0 <= origin_lod <= lod,
    ensures
        shifted_offset(xy, origin_xy, lod, origin_lod) * pow2(origin_lod as nat) == xy * pow2(
            origin_lod as nat,
        ) - origin_xy * pow2(lod as nat),
        origin_xy * pow2((lod - origin_lod) as nat) <= xy < (origin_xy + 1) * pow2(
            (lod - origin_lod) as nat,
        ) ==> 0 <= shifted_offset(xy, origin_xy, lod, origin_lod) < pow2((lod - origin_lod) as nat),
{
    let d = pow2((lod - origin_lod) as nat);
    let a = pow2(origin_lod as nat);
    lemma_pow2_adds((lod - origin_lod) as nat, origin_lod as nat);
    assert(pow2(lod as nat) == d * a);
    assert((xy - origin_xy * d) * a == xy * a - origin_xy * (d * a)) by (nonlinear_arith);
    assert((origin_xy + 1) * d == origin_xy * d + d) by (nonlinear_arith);
}

} // verus!
