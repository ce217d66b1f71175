//! Axial-to-world coordinate math for a flat-top hexagonal tiling.
//!
//! A cell is addressed by integer axial coordinates `(x, z)`.  Its world
//! position is
//!
//! ```text
//! world.x = (x + z*0.5 - floor(z/2)) * 2r
//! world.y = 0
//! world.z = z * R * 1.5
//! ```
//!
//! where `R` is the outer (circum-) radius and `r = R*sqrt(3)/2` the inner
//! radius.  The term `z*0.5 - floor(z/2)` is `0` for even rows and
//! `+0.5` for every odd row, so the parenthesised x-term is always a
//! multiple of one half and the whole position is held exactly as
//! integers: the x-component in units of `r`, the z-component in units
//! of `R/2`.

use vstd::prelude::*;

verus! {

/// A three-component integer vector.
///
/// For world positions the components are exact anisotropic units: `x`
/// counts inner radii `r`, `y` counts world units (always zero for this
/// flat layout), and `z` counts half outer radii `R/2`.  A renderer
/// recovers floating-point coordinates by scaling each component.
#[derive(Debug, Clone, Copy, PartialEq, Eq, Structural)]
pub struct Vec3i {
    pub x: i64,
    pub y: i64,
    pub z: i64,
}

/// Offset that interleaves odd rows with even rows, in units of `r`:
/// the term `z*0.5 - floor(z/2)`, doubled.  It is `0` for even rows and
/// `1` for every odd row, negative rows included, since flooring rounds
/// toward minus infinity.
pub open spec fn row_offset_units(z: int) -> int {
    if z % 2 == 0 {
        0
    } else {
        1
    }
}

/// World x-coordinate of cell `(x, z)` in units of the inner radius `r`:
/// `(x + z*0.5 - floor(z/2)) * 2r` expressed as a count of `r`.
pub open spec fn world_x_units(x: int, z: int) -> int {
    2 * x + row_offset_units(z)
}

/// World z-coordinate of cell `(x, z)` in units of `R/2`:
/// `z * R * 1.5` expressed as a count of `R/2`.
pub open spec fn world_z_units(z: int) -> int {
    3 * z
}

/// Maps axial coordinates to the cell's world position in exact units.
pub fn hex_to_world(x: i32, z: i32) -> (p: Vec3i)
    ensures
        p.x == world_x_units(x as int, z as int),
        p.y == 0,
        p.z == world_z_units(z as int),
{
    let xi: i64 = x as i64;
    let zi: i64 = z as i64;
    let offset: i64 = if zi % 2 == 0 {
        0
    } else {
        1
    };
    Vec3i { x: 2 * xi + offset, y: 0, z: 3 * zi }
}

/// The layout is injective: distinct cells never share a world position.
/// Together with `hex_to_world`'s exact postcondition (the result is a
/// function of the arguments alone, so the map is deterministic), this
/// pins the layout down over the whole integer domain.
pub proof fn lemma_hex_to_world_injective(x1: int, z1: int, x2: int, z2: int)
    requires
        world_x_units(x1, z1) == world_x_units(x2, z2),
        world_z_units(z1) == world_z_units(z2),
    ensures
        x1 == x2,
        z1 == z2,
{
}

} // verus!
