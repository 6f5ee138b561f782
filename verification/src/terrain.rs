//! Procedural terrain topology.
//!
//! An `n` by `n` height field is triangulated into `(n-1) * (n-1)` quads,
//! one per grid cell, each quad split into two triangles. Every cell emits
//! its own four corner vertices (no sharing across cells) with texture
//! coordinates forming a unit square, and six indices with uniform winding so
//! the upward face survives back-face culling. Every terrain vertex has the
//! upward normal `(0, 1, 0)`, which the graphics host attaches when it
//! converts to its vertex format.

use vstd::prelude::*;
use vstd::arithmetic::div_mod::lemma_fundamental_div_mod_converse;
use crate::world::World;
use crate::world::GRID_LIMIT;

verus! {

/// One emitted terrain vertex: grid-unit position, milliunit height and a
/// unit-square texture corner.
#[derive(Clone, Copy, PartialEq, Eq, Structural, Debug)]
pub struct TerrainVertex {
    /// Grid x coordinate, in world units.
    pub x: i64,
    /// Sampled height, in milliunits.
    pub y_milli: i64,
    /// Grid z coordinate, in world units.
    pub z: i64,
    /// Texture u corner, 0 or 1.
    pub u: u8,
    /// Texture v corner, 0 or 1.
    pub v: u8,
}

/// The triangulated ground: duplicated per-cell vertices plus the index list
/// that draws them.
pub struct TerrainGeometry {
    /// Four vertices per grid cell, cell after cell.
    pub vertices: Vec<TerrainVertex>,
    /// Six indices per grid cell, cell after cell.
    pub indices: Vec<u32>,
}

/// Number of quads a world's grid triangulates into.
pub open spec fn quad_count(w: World) -> int {
    (w.size - 1) * (w.size - 1)
}

/// Corner `k` (0 top-left, 1 top-right, 2 bottom-left, 3 bottom-right) of
/// quad `q`, quads numbered row-major with x fastest.
pub open spec fn spec_quad_vertex(w: World, q: int, k: int) -> TerrainVertex {
    let cols = w.size - 1;
    let qx = q % cols;
    let qz = q / cols;
    let cx = qx + (if k == 1 || k == 3 {
        1int
    } else {
        0int
    });
    let cz = qz + (if k == 2 || k == 3 {
        1int
    } else {
        0int
    });
    TerrainVertex {
        x: cx as i64,
        y_milli: w.height_at(cx, cz) as i64,
        z: cz as i64,
        u: if k == 1 || k == 3 {
            1u8
        } else {
            0u8
        },
        v: if k == 2 || k == 3 {
            1u8
        } else {
            0u8
        },
    }
}

/// Index `j` of quad `q`: the two triangles `(0, 2, 1)` and `(1, 2, 3)` over
/// the quad's four vertices, in emission order.
pub open spec fn spec_quad_index(q: int, j: int) -> int {
    4 * q + (if j == 0 {
        0int
    } else if j == 1 {
        2int
    } else if j == 2 {
        1int
    } else if j == 3 {
        1int
    } else if j == 4 {
        2int
    } else {
        3int
    })
}

/// The full vertex list for the first `quads` quads of `w`'s grid.
pub open spec fn spec_terrain_vertices(w: World, quads: int) -> Seq<TerrainVertex> {
    Seq::new((4 * quads) as nat, |i: int| spec_quad_vertex(w, i / 4, i % 4))
}

/// The full index list for the first `quads` quads.
pub open spec fn spec_terrain_indices(quads: int) -> Seq<u32> {
    Seq::new((6 * quads) as nat, |i: int| spec_quad_index(i / 6, i % 6) as u32)
}

/// Triangulate the world's height field.
///
/// The result holds exactly `4 * (n-1)^2` vertices and `6 * (n-1)^2` indices
/// for an `n` by `n` grid, every index addresses an emitted vertex, and both
/// lists follow the per-quad layout of `spec_quad_vertex` and
/// `spec_quad_index`.
pub fn build_terrain_geometry(w: &World) -> (r: TerrainGeometry)
    requires
        w.wf(),
    ensures
        r.vertices@ == spec_terrain_vertices(*w, quad_count(*w)),
        r.indices@ == spec_terrain_indices(quad_count(*w)),
        r.vertices@.len() == 4 * quad_count(*w),
        r.indices@.len() == 6 * quad_count(*w),
        forall|i: int|
            0 <= i < r.indices@.len() ==> (#[trigger] r.indices@[i]) < r.vertices@.len(),
{
    let cols: usize = w.size - 1;
    let mut vertices: Vec<TerrainVertex> = Vec::new();
    let mut indices: Vec<u32> = Vec::new();
    let mut q: usize = 0;
    let mut z: usize = 0;
    proof {
        assert(cols * cols <= GRID_LIMIT * GRID_LIMIT) by (nonlinear_arith)
            requires
                0 <= cols <= GRID_LIMIT,
        ;
    }
    while z < cols
        invariant
            w.wf(),
            cols == w.size - 1,
            z <= cols,
            q == z * cols,
            q <= cols * cols,
            cols * cols <= GRID_LIMIT * GRID_LIMIT,
            vertices@ == spec_terrain_vertices(*w, q as int),
            indices@ == spec_terrain_indices(q as int),
        decreases cols - z,
    {
        let mut x: usize = 0;
        proof {
            assert(z * cols + cols <= cols * cols) by (nonlinear_arith)
                requires
                    0 <= z < cols,
            ;
        }
        while x < cols
            invariant
                w.wf(),
                cols == w.size - 1,
                z < cols,
                x <= cols,
                q == z * cols + x,
                z * cols + cols <= cols * cols,
                cols * cols <= GRID_LIMIT * GRID_LIMIT,
                vertices@ == spec_terrain_vertices(*w, q as int),
                indices@ == spec_terrain_indices(q as int),
            decreases cols - x,
        {
            proof {
                lemma_fundamental_div_mod_converse(q as int, cols as int, z as int, x as int);
            }
            let y_tl: i64 = w.get_height(x as i64, z as i64);
            let y_tr: i64 = w.get_height((x + 1) as i64, z as i64);
            let y_bl: i64 = w.get_height(x as i64, (z + 1) as i64);
            let y_br: i64 = w.get_height((x + 1) as i64, (z + 1) as i64);
            let base: u32 = (4 * q) as u32;
            vertices.push(TerrainVertex { x: x as i64, y_milli: y_tl, z: z as i64, u: 0, v: 0 });
            vertices.push(
                TerrainVertex { x: (x + 1) as i64, y_milli: y_tr, z: z as i64, u: 1, v: 0 },
            );
            vertices.push(
                TerrainVertex { x: x as i64, y_milli: y_bl, z: (z + 1) as i64, u: 0, v: 1 },
            );
            vertices.push(
                TerrainVertex { x: (x + 1) as i64, y_milli: y_br, z: (z + 1) as i64, u: 1, v: 1 },
            );
            indices.push(base);
            indices.push(base + 2);
            indices.push(base + 1);
            indices.push(base + 1);
            indices.push(base + 2);
            indices.push(base + 3);
            proof {
                let wq = q as int;
                let nv = spec_terrain_vertices(*w, wq + 1);
                assert forall|i: int| 0 <= i < 4 * (wq + 1) implies vertices@[i] == nv[i] by {
                    if i < 4 * wq {
                    } else {
                        lemma_fundamental_div_mod_converse(i, 4, wq, i - 4 * wq);
                    }
                };
                assert(vertices@ =~= nv);
                let ni = spec_terrain_indices(wq + 1);
                assert forall|i: int| 0 <= i < 6 * (wq + 1) implies indices@[i] == ni[i] by {
                    if i < 6 * wq {
                    } else {
                        lemma_fundamental_div_mod_converse(i, 6, wq, i - 6 * wq);
                    }
                };
                assert(indices@ =~= ni);
            }
            q = q + 1;
            x = x + 1;
        }
        proof {
            assert((z + 1) * cols == z * cols + cols) by (nonlinear_arith);
        }
        z = z + 1;
    }
    let r = TerrainGeometry { vertices, indices };
    proof {
        assert(q == cols * cols) by (nonlinear_arith)
            requires
                q == z * cols,
                z == cols,
        ;
        assert forall|i: int| 0 <= i < r.indices@.len() implies (#[trigger] r.indices@[i])
            < r.vertices@.len() by {
            let qi = i / 6;
            let ji = i % 6;
            vstd::arithmetic::div_mod::lemma_fundamental_div_mod(i, 6);
            vstd::arithmetic::div_mod::lemma_mod_bound(i, 6);
            assert(qi < quad_count(*w));
            assert(0 <= spec_quad_index(qi, ji) < 4 * quad_count(*w));
        };
    }
    r
}

} // verus!
