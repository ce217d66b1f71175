//! The canonical hexagonal tile mesh: one centre vertex, six rim
//! vertices 60° apart, an up-facing normal per vertex, matching texture
//! coordinates, and a six-triangle fan.  Built once and shared read-only
//! by every grid cell.
//!
//! Geometry is exact.  Vertex positions use the same integer units as
//! the layout (`x` in inner radii `r`, `z` in half outer radii `R/2`).
//! Texture coordinates of the canonical tile (`R = 2`) are all exact
//! multiples of one half: the slanted rim corners sit at
//! `0.5 ± tan(30°)·r`, and `tan(30°)·r = R·sqrt(3)/2 / sqrt(3) = R/2`,
//! which is exactly `1.0` for `R = 2`.  So UVs are held doubled, as
//! integers.

use vstd::prelude::*;
use crate::coords::Vec3i;

verus! {

/// A texture coordinate in exact half-units: `u_half` is twice the
/// u-coordinate and `v_half` twice the v-coordinate.
#[derive(Debug, Clone, Copy, PartialEq, Eq, Structural)]
pub struct Uv {
    pub u_half: i64,
    pub v_half: i64,
}

/// The trigonometric rim offset `tan(30°) * r` of the slanted UV
/// corners, in half-units.  For the canonical tile it is exactly one,
/// i.e. two half-units.
pub const UV_OPPOSITE_LEG_HALF: i64 = 2;

/// The hexagonal tile mesh: parallel vertex attributes and a triangle
/// index list.
#[derive(Debug, PartialEq, Eq)]
pub struct HexMesh {
    pub positions: Vec<Vec3i>,
    pub uvs: Vec<Uv>,
    pub normals: Vec<Vec3i>,
    pub indices: Vec<u32>,
}

/// The seven vertex positions: the centre, then the rim counted
/// clockwise from "north" (`+z`).
pub open spec fn hex_positions() -> Seq<Vec3i> {
    seq![
        (Vec3i { x: 0, y: 0, z: 0 }),
        (Vec3i { x: 0, y: 0, z: 2 }),
        (Vec3i { x: 1, y: 0, z: 1 }),
        (Vec3i { x: 1, y: 0, z: (-1) as i64 }),
        (Vec3i { x: 0, y: 0, z: (-2) as i64 }),
        (Vec3i { x: (-1) as i64, y: 0, z: (-1) as i64 }),
        (Vec3i { x: (-1) as i64, y: 0, z: 1 }),
    ]
}

/// The seven texture coordinates, in half-units.  The slanted rim
/// corners sit at `0.5 ± 1.0`, i.e. `1 ∓ 2` half-units from the centre
/// column (see `UV_OPPOSITE_LEG_HALF`).
pub open spec fn hex_uvs() -> Seq<Uv> {
    seq![
        (Uv { u_half: 1, v_half: 1 }),
        (Uv { u_half: 0, v_half: 1 }),
        (Uv { u_half: (-1) as i64, v_half: 2 }),
        (Uv { u_half: 3, v_half: 2 }),
        (Uv { u_half: 2, v_half: 1 }),
        (Uv { u_half: 3, v_half: 0 }),
        (Uv { u_half: (-1) as i64, v_half: 0 }),
    ]
}

/// The straight-up direction.
pub open spec fn up_normal() -> Vec3i {
    Vec3i { x: 0, y: 1, z: 0 }
}

/// One up-facing normal per vertex.
pub open spec fn hex_normals() -> Seq<Vec3i> {
    seq![
        (Vec3i { x: 0, y: 1, z: 0 }),
        (Vec3i { x: 0, y: 1, z: 0 }),
        (Vec3i { x: 0, y: 1, z: 0 }),
        (Vec3i { x: 0, y: 1, z: 0 }),
        (Vec3i { x: 0, y: 1, z: 0 }),
        (Vec3i { x: 0, y: 1, z: 0 }),
        (Vec3i { x: 0, y: 1, z: 0 }),
    ]
}

/// The six-triangle fan around the centre vertex.
pub open spec fn hex_indices() -> Seq<u32> {
    seq![0u32, 1, 2, 0, 2, 3, 0, 3, 4, 0, 4, 5, 0, 5, 6, 0, 6, 1]
}

impl HexMesh {
    /// Well-formedness: the vertex attributes run in parallel, the index
    /// list holds whole triangles, and every index names a vertex.
    pub open spec fn wf(self) -> bool {
        &&& self.uvs@.len() == self.positions@.len()
        &&& self.normals@.len() == self.positions@.len()
        &&& self.indices@.len() % 3 == 0
        &&& forall|i: int|
            0 <= i < self.indices@.len() ==> (self.indices@[i] as int) < self.positions@.len()
    }
}

/// Builds the canonical hexagon tile mesh.
pub fn create_hex_mesh() -> (m: HexMesh)
    ensures
        m.positions@ == hex_positions(),
        m.uvs@ == hex_uvs(),
        m.normals@ == hex_normals(),
        m.indices@ == hex_indices(),
        m.wf(),
{
    let positions: Vec<Vec3i> = vec![
        Vec3i { x: 0, y: 0, z: 0 },
        Vec3i { x: 0, y: 0, z: 2 },
        Vec3i { x: 1, y: 0, z: 1 },
        Vec3i { x: 1, y: 0, z: -1 },
        Vec3i { x: 0, y: 0, z: -2 },
        Vec3i { x: -1, y: 0, z: -1 },
        Vec3i { x: -1, y: 0, z: 1 },
    ];
    let uvs: Vec<Uv> = vec![
        Uv { u_half: 1, v_half: 1 },
        Uv { u_half: 0, v_half: 1 },
        Uv { u_half: -1, v_half: 2 },
        Uv { u_half: 3, v_half: 2 },
        Uv { u_half: 2, v_half: 1 },
        Uv { u_half: 3, v_half: 0 },
        Uv { u_half: -1, v_half: 0 },
    ];
    let normals: Vec<Vec3i> = vec![
        Vec3i { x: 0, y: 1, z: 0 },
        Vec3i { x: 0, y: 1, z: 0 },
        Vec3i { x: 0, y: 1, z: 0 },
        Vec3i { x: 0, y: 1, z: 0 },
        Vec3i { x: 0, y: 1, z: 0 },
        Vec3i { x: 0, y: 1, z: 0 },
        Vec3i { x: 0, y: 1, z: 0 },
    ];
    let indices: Vec<u32> = vec![0, 1, 2, 0, 2, 3, 0, 3, 4, 0, 4, 5, 0, 5, 6, 0, 6, 1];
    let m = HexMesh { positions, uvs, normals, indices };
    proof {
        assert(m.positions@ =~= hex_positions());
        assert(m.uvs@ =~= hex_uvs());
        assert(m.normals@ =~= hex_normals());
        assert(m.indices@ =~= hex_indices());
    }
    m
}

/// The canonical mesh has exactly 7 vertices, 6 triangles (18 indices),
/// every normal straight up, and every index in range.
pub proof fn lemma_hex_mesh_shape()
    ensures
        hex_positions().len() == 7,
        hex_uvs().len() == 7,
        hex_normals().len() == 7,
        hex_indices().len() == 18,
        forall|i: int| 0 <= i < hex_normals().len() ==> hex_normals()[i] == up_normal(),
        forall|i: int|
            0 <= i < hex_indices().len() ==> (hex_indices()[i] as int) < hex_positions().len(),
{
}

/// Index of the vertex whose UV mirrors vertex `i`'s across the
/// vertical centre line `u = 0.5` of texture space.
pub open spec fn u_mirror(i: int) -> int {
    if i == 1 {
        4
    } else if i == 2 {
        3
    } else if i == 3 {
        2
    } else if i == 4 {
        1
    } else if i == 5 {
        6
    } else if i == 6 {
        5
    } else {
        0
    }
}

/// Index of the vertex whose UV mirrors vertex `i`'s across the
/// horizontal centre line `v = 0.5` of texture space.
pub open spec fn v_mirror(i: int) -> int {
    if i == 2 {
        6
    } else if i == 3 {
        5
    } else if i == 5 {
        3
    } else if i == 6 {
        2
    } else {
        i
    }
}

/// The slanted rim corners carry the trigonometric offset exactly, and
/// the whole UV set is symmetric about the `0.5` centre line on both
/// axes: mirrored vertices' coordinates sum to `1.0` (two half-units).
pub proof fn lemma_hex_uvs_symmetric()
    ensures
        hex_uvs()[2].u_half == 1 - UV_OPPOSITE_LEG_HALF,
        hex_uvs()[6].u_half == 1 - UV_OPPOSITE_LEG_HALF,
        hex_uvs()[3].u_half == 1 + UV_OPPOSITE_LEG_HALF,
        hex_uvs()[5].u_half == 1 + UV_OPPOSITE_LEG_HALF,
        forall|i: int|
            0 <= i < 7 ==> hex_uvs()[i].u_half + hex_uvs()[u_mirror(i)].u_half == 2,
        forall|i: int|
            0 <= i < 7 ==> hex_uvs()[i].v_half + hex_uvs()[v_mirror(i)].v_half == 2,
{
}

} // verus!
