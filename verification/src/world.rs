//! The terrain height field.
//!
//! A square grid of height samples, in milliunits, fixed after construction.
//! Height lookups clamp their coordinates onto the grid and pick the named
//! cell (nearest-neighbour grounding; the caller rounds fractional
//! coordinates to the nearest cell first).

use vstd::prelude::*;
use crate::fixed::clamp_i64;
use crate::fixed::spec_clamp;
use crate::fixed::COORD_LIMIT;

verus! {

/// Grid side length of the default world.
pub const WORLD_SIZE: usize = 64;

/// Largest grid side length a world may have.
pub const GRID_LIMIT: usize = 10_000;

/// A square height field with `size * size` samples.
pub struct World {
    /// Grid side length.
    pub size: usize,
    /// Height samples in milliunits, row-major: the sample for grid cell
    /// `(x, z)` sits at index `x * size + z`.
    pub heightmap: Vec<i64>,
}

impl World {
    /// The grid is non-degenerate, fully populated and its samples are
    /// bounded coordinates.
    pub open spec fn wf(self) -> bool {
        &&& 1 <= self.size <= GRID_LIMIT
        &&& self.heightmap@.len() == self.size * self.size
        &&& forall|i: int|
            0 <= i < self.heightmap@.len() ==> -COORD_LIMIT <= #[trigger] self.heightmap@[i]
                <= COORD_LIMIT
    }

    /// The sample stored for grid cell `(xi, zi)`.
    pub open spec fn height_at(self, xi: int, zi: int) -> int {
        self.heightmap@[xi * self.size + zi] as int
    }

    /// `v` clamped onto the grid interval `[0, size - 1]`.
    pub open spec fn grid_clamp(self, v: int) -> int {
        spec_clamp(v, 0, self.size - 1)
    }

    /// The height sampling function: coordinates are clamped onto the grid,
    /// then the named cell's sample is returned.
    pub open spec fn spec_get_height(self, x: int, z: int) -> int {
        self.height_at(self.grid_clamp(x), self.grid_clamp(z))
    }

    /// A world over the given samples; `heightmap` must hold one sample per
    /// grid cell.
    pub fn new(size: usize, heightmap: Vec<i64>) -> (r: World)
        requires
            1 <= size <= GRID_LIMIT,
            heightmap@.len() == size * size,
            forall|i: int|
                0 <= i < heightmap@.len() ==> -COORD_LIMIT <= #[trigger] heightmap@[i]
                    <= COORD_LIMIT,
        ensures
            r.size == size,
            r.heightmap == heightmap,
            r.wf(),
    {
        World { size, heightmap }
    }

    /// A flat world: every sample is zero.
    pub fn flat(size: usize) -> (r: World)
        requires
            1 <= size <= GRID_LIMIT,
        ensures
            r.size == size,
            r.wf(),
            forall|xi: int, zi: int|
                0 <= xi < size && 0 <= zi < size ==> #[trigger] r.height_at(xi, zi) == 0,
    {
        assert(size * size <= GRID_LIMIT * GRID_LIMIT) by (nonlinear_arith)
            requires
                0 <= size <= GRID_LIMIT,
        ;
        let total: usize = size * size;
        let mut heightmap: Vec<i64> = Vec::new();
        let mut i: usize = 0;
        while i < total
            invariant
                i <= total,
                heightmap@.len() == i,
                forall|j: int| 0 <= j < i ==> #[trigger] heightmap@[j] == 0,
            decreases total - i,
        {
            heightmap.push(0);
            i = i + 1;
        }
        let w = World { size, heightmap };
        proof {
            assert forall|xi: int, zi: int|
                0 <= xi < size && 0 <= zi < size implies #[trigger] w.height_at(xi, zi) == 0 by {
                assert(0 <= xi * size + zi < size * size) by (nonlinear_arith)
                    requires
                        0 <= xi < size,
                        0 <= zi < size,
                ;
            };
        }
        w
    }

    /// Sample the height under `(x, z)` grid coordinates, clamping each onto
    /// the grid first.
    pub fn get_height(&self, x: i64, z: i64) -> (r: i64)
        requires
            self.wf(),
        ensures
            r == self.spec_get_height(x as int, z as int),
            -COORD_LIMIT <= r <= COORD_LIMIT,
    {
        let side: i64 = self.size as i64;
        let xc: i64 = clamp_i64(x, 0, side - 1);
        let zc: i64 = clamp_i64(z, 0, side - 1);
        let ux: usize = xc as usize;
        let uz: usize = zc as usize;
        proof {
            assert(ux * self.size + uz < self.size * self.size <= GRID_LIMIT * GRID_LIMIT)
                by (nonlinear_arith)
                requires
                    0 <= ux < self.size,
                    0 <= uz < self.size,
                    self.size <= GRID_LIMIT,
            ;
            assert(ux * self.size + uz == xc * self.size + zc) by (nonlinear_arith)
                requires
                    ux == xc,
                    uz == zc,
            ;
        }
        let idx: usize = ux * self.size + uz;
        self.heightmap[idx]
    }
}

/// Height sampling is coordinate-clamped and therefore idempotent: sampling
/// at any coordinates equals sampling at their clamped images.
pub proof fn lemma_get_height_clamped(w: World, x: int, z: int)
    requires
        w.wf(),
    ensures
        w.spec_get_height(x, z) == w.spec_get_height(w.grid_clamp(x), w.grid_clamp(z)),
{
}

} // verus!
