//! Tests of grid construction over rectangular windows.

use hexgrid::biome::Biome;
use hexgrid::coords::hex_to_world;
use hexgrid::grid::build_hex_grid;

#[test]
fn grid_covers_the_window_in_order() {
    let cells = build_hex_grid(-2, 2, -2, 2);
    assert_eq!(cells.len(), 16);
    let mut k = 0;
    for z in -2..2 {
        for x in -2..2 {
            let c = &cells[k];
            assert_eq!(c.position, hex_to_world(x, z));
            assert_eq!((c.index.x, c.index.y, c.index.z), (x as i64, (-x - z) as i64, z as i64));
            k += 1;
        }
    }
}

#[test]
fn grid_indices_are_cube_coordinates() {
    let cells = build_hex_grid(-10, 10, -10, 10);
    assert_eq!(cells.len(), 400);
    for c in &cells {
        assert_eq!(c.index.x + c.index.y + c.index.z, 0);
    }
}

#[test]
fn grid_biomes_are_never_empty() {
    let cells = build_hex_grid(-10, 10, -10, 10);
    for c in &cells {
        assert_ne!(c.biome, Biome::Empty);
    }
}

#[test]
fn empty_window_builds_no_cells() {
    assert_eq!(build_hex_grid(3, 3, -2, 2).len(), 0);
    assert_eq!(build_hex_grid(-2, 2, 5, 5).len(), 0);
}

#[test]
fn single_cell_window() {
    let cells = build_hex_grid(4, 5, -3, -2);
    assert_eq!(cells.len(), 1);
    assert_eq!(cells[0].position, hex_to_world(4, -3));
}
