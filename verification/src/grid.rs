//! Construction of the tile grid: one cell per axial coordinate in a
//! rectangular window, each holding its exact world position, its
//! cube-coordinate display index, and a biome tag drawn at random.
//!
//! Cells are produced row by row (`z` outermost), each row left to
//! right, matching the spawn order of the rendering pass that consumes
//! them.

use vstd::prelude::*;
use vstd::arithmetic::div_mod::{
    lemma_fundamental_div_mod_converse_div, lemma_fundamental_div_mod_converse_mod,
};
use vstd::arithmetic::div_mod::lemma_fundamental_div_mod;
use crate::biome::{generate_biome, Biome};
use crate::coords::{hex_to_world, lemma_hex_to_world_injective, world_x_units, world_z_units, Vec3i};

verus! {

/// One grid cell.  `position` is the world position in exact units
/// (see `coords`); `index` is the derived cube coordinate
/// `(x, -x-z, z)` kept for display; `biome` is the random tag.
#[derive(Debug, Clone, Copy, PartialEq, Eq, Structural)]
pub struct HexCell {
    pub position: Vec3i,
    pub index: Vec3i,
    pub biome: Biome,
}

/// What holds of the cell built for axial coordinates `(x, z)`: the
/// position is the layout's, the index is the cube coordinate (its
/// components sum to zero), and the drawn biome is never `Empty`.
pub open spec fn cell_ok(c: HexCell, x: int, z: int) -> bool {
    &&& c.position.x == world_x_units(x, z)
    &&& c.position.y == 0
    &&& c.position.z == world_z_units(z)
    &&& c.index.x == x
    &&& c.index.y == -x - z
    &&& c.index.z == z
    &&& c.biome != Biome::Empty
}

/// Builds the cells of the window `x_min..x_max` × `z_min..z_max`,
/// `z` varying outermost.  The cell at slot `k` belongs to column
/// `x_min + k % (x_max - x_min)` and row `z_min + k / (x_max - x_min)`.
pub fn build_hex_grid(x_min: i32, x_max: i32, z_min: i32, z_max: i32) -> (cells: Vec<HexCell>)
    requires
        x_min <= x_max,
        z_min <= z_max,
        (x_max - x_min) * (z_max - z_min) <= usize::MAX,
    ensures
        cells@.len() == (x_max - x_min) * (z_max - z_min),
        forall|k: int|
            0 <= k < cells@.len() ==> cell_ok(
                #[trigger] cells@[k],
                x_min + k % (x_max - x_min),
                z_min + k / (x_max - x_min),
            ),
{
    let nx: i64 = x_max as i64 - x_min as i64;
    let mut cells: Vec<HexCell> = Vec::new();
    let mut z: i64 = z_min as i64;
    while z < z_max as i64
        invariant
            x_min <= x_max,
            z_min <= z <= z_max,
            nx == x_max - x_min,
            cells@.len() == (z - z_min) * nx,
            forall|k: int|
                0 <= k < cells@.len() ==> cell_ok(
                    #[trigger] cells@[k],
                    x_min + k % (nx as int),
                    z_min + k / (nx as int),
                ),
        decreases z_max - z,
    {
        let mut x: i64 = x_min as i64;
        while x < x_max as i64
            invariant
                x_min <= x <= x_max,
                z_min <= z < z_max,
                nx == x_max - x_min,
                cells@.len() == (z - z_min) * nx + (x - x_min),
                forall|k: int|
                    0 <= k < cells@.len() ==> cell_ok(
                        #[trigger] cells@[k],
                        x_min + k % (nx as int),
                        z_min + k / (nx as int),
                    ),
            decreases x_max - x,
        {
            let position: Vec3i = hex_to_world(x as i32, z as i32);
            let index: Vec3i = Vec3i { x, y: -x - z, z };
            let new_biome: Biome = generate_biome();
            cells.push(HexCell { position, index, biome: new_biome });
            proof {
                let k: int = cells@.len() - 1;
                lemma_fundamental_div_mod_converse_mod(k, nx as int, z - z_min, x - x_min);
                lemma_fundamental_div_mod_converse_div(k, nx as int, z - z_min, x - x_min);
                assert(x_min + k % (nx as int) == x);
                assert(z_min + k / (nx as int) == z);
            }
            x = x + 1;
        }
        proof {
            assert((z + 1 - z_min) * nx == (z - z_min) * nx + nx) by (nonlinear_arith);
        }
        z = z + 1;
    }
    proof {
        vstd::arithmetic::mul::lemma_mul_is_commutative(z_max - z_min, x_max - x_min);
    }
    cells
}

/// Every cell of the window is in the grid: the cell of axial
/// coordinates `(x, z)` sits at slot `(z - z_min) * (x_max - x_min)
/// + (x - x_min)`, and that slot decodes back to `(x, z)` under
/// `build_hex_grid`'s postcondition.
pub proof fn lemma_grid_slot(x: int, z: int, x_min: int, x_max: int, z_min: int, z_max: int)
    requires
        x_min <= x < x_max,
        z_min <= z < z_max,
    ensures
        ({
            let k = (z - z_min) * (x_max - x_min) + (x - x_min);
            &&& 0 <= k < (x_max - x_min) * (z_max - z_min)
            &&& x_min + k % (x_max - x_min) == x
            &&& z_min + k / (x_max - x_min) == z
        }),
{
    let nx = x_max - x_min;
    let k = (z - z_min) * nx + (x - x_min);
    lemma_fundamental_div_mod_converse_mod(k, nx, z - z_min, x - x_min);
    lemma_fundamental_div_mod_converse_div(k, nx, z - z_min, x - x_min);
    assert(0 <= k < nx * (z_max - z_min)) by (nonlinear_arith)
        requires
            x_min <= x < x_max,
            z_min <= z < z_max,
            nx == x_max - x_min,
            k == (z - z_min) * nx + (x - x_min),
    ;
    vstd::arithmetic::mul::lemma_mul_is_commutative(z_max - z_min, x_max - x_min);
}

/// No two cells of a built grid share a world position: distinct slots
/// decode to distinct axial coordinates, and the layout is injective.
pub proof fn lemma_grid_positions_distinct(
    cells: Seq<HexCell>,
    x_min: int,
    x_max: int,
    z_min: int,
    k1: int,
    k2: int,
)
    requires
        x_min < x_max,
        forall|k: int|
            0 <= k < cells.len() ==> cell_ok(
                #[trigger] cells[k],
                x_min + k % (x_max - x_min),
                z_min + k / (x_max - x_min),
            ),
        0 <= k1 < cells.len(),
        0 <= k2 < cells.len(),
        k1 != k2,
    ensures
        cells[k1].position != cells[k2].position,
{
    let nx = x_max - x_min;
    let x1 = x_min + k1 % nx;
    let z1 = z_min + k1 / nx;
    let x2 = x_min + k2 % nx;
    let z2 = z_min + k2 / nx;
    if cells[k1].position == cells[k2].position {
        lemma_hex_to_world_injective(x1, z1, x2, z2);
        lemma_fundamental_div_mod(k1, nx);
        lemma_fundamental_div_mod(k2, nx);
        assert(false);
    }
}

} // verus!
