//! Tests of the axial-to-world layout.  Positions come back in exact
//! units: `x` in inner radii `r`, `z` in half outer radii `R/2`.  For
//! the radius constants `R = 2`, `r = 1.732...` of the renderer, one
//! x-unit is `r` world units and one z-unit is `1.0` world units.

use hexgrid::coords::{hex_to_world, Vec3i};

#[test]
fn origin_maps_to_origin() {
    // hex_to_world(0,0) = (0, 0, 0)
    assert_eq!(hex_to_world(0, 0), Vec3i { x: 0, y: 0, z: 0 });
}

#[test]
fn unit_column_maps_to_two_inner_radii() {
    // hex_to_world(1,0) = (2r, 0, 0): two x-units of r each
    assert_eq!(hex_to_world(1, 0), Vec3i { x: 2, y: 0, z: 0 });
}

#[test]
fn unit_row_interleaves_half_step() {
    // hex_to_world(0,1) = (r, 0, 1.5R): one x-unit, three z-units of R/2
    assert_eq!(hex_to_world(0, 1), Vec3i { x: 1, y: 0, z: 3 });
}

#[test]
fn negative_rows_interleave_like_positive() {
    // floor(z/2) rounds toward minus infinity, so every odd row shifts
    // right by half a step, negative rows included
    assert_eq!(hex_to_world(0, -1), Vec3i { x: 1, y: 0, z: -3 });
    assert_eq!(hex_to_world(-1, -2), Vec3i { x: -2, y: 0, z: -6 });
    assert_eq!(hex_to_world(-1, 0), Vec3i { x: -2, y: 0, z: 0 });
}

#[test]
fn layout_is_deterministic() {
    for z in -10..10 {
        for x in -10..10 {
            assert_eq!(hex_to_world(x, z), hex_to_world(x, z));
        }
    }
}

#[test]
fn layout_is_injective_over_window() {
    let mut seen: Vec<(i64, i64, i64)> = Vec::new();
    for z in -10..10 {
        for x in -10..10 {
            let p = hex_to_world(x, z);
            seen.push((p.x, p.y, p.z));
        }
    }
    assert_eq!(seen.len(), 400);
    seen.sort();
    for w in seen.windows(2) {
        assert_ne!(w[0], w[1], "two cells share a world position");
    }
}
