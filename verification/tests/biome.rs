//! Tests of biome drawing and the biome colour table.

use hexgrid::biome::{biome_from_draw, generate_biome, Biome, TileColor};

#[test]
fn draws_map_to_labels_in_order() {
    assert_eq!(biome_from_draw(0), Biome::Grassland);
    assert_eq!(biome_from_draw(1), Biome::Forest);
    assert_eq!(biome_from_draw(2), Biome::Ocean);
    assert_eq!(biome_from_draw(3), Biome::Sand);
    assert_eq!(biome_from_draw(4), Biome::Desert);
    assert_eq!(biome_from_draw(5), Biome::Mountain);
    // out-of-range draws fall through to Empty; the draw range 0..6
    // never produces them
    assert_eq!(biome_from_draw(6), Biome::Empty);
    assert_eq!(biome_from_draw(200), Biome::Empty);
}

#[test]
fn generated_biomes_are_never_empty() {
    for _ in 0..10_000 {
        assert_ne!(generate_biome(), Biome::Empty);
    }
}

#[test]
fn generated_biomes_are_roughly_uniform() {
    const DRAWS: usize = 60_000;
    let mut counts = [0usize; 6];
    for _ in 0..DRAWS {
        let slot = match generate_biome() {
            Biome::Grassland => 0,
            Biome::Forest => 1,
            Biome::Ocean => 2,
            Biome::Sand => 3,
            Biome::Desert => 4,
            Biome::Mountain => 5,
            Biome::Empty => unreachable!("Empty is outside the draw range"),
        };
        counts[slot] += 1;
    }
    // expectation 10_000 per label; the bound is far wider than any
    // plausible fluctuation of a uniform draw
    for (i, &c) in counts.iter().enumerate() {
        assert!(
            (8_500..=11_500).contains(&c),
            "label {} drawn {} times out of {}",
            i,
            c,
            DRAWS
        );
    }
}

#[test]
fn biome_colours_match_the_table() {
    let cases = [
        (Biome::Grassland, (0, 100, 0)),
        (Biome::Forest, (0, 50, 0)),
        (Biome::Ocean, (10, 10, 44)),
        (Biome::Sand, (96, 96, 86)),
        (Biome::Desert, (100, 100, 0)),
        (Biome::Mountain, (75, 75, 75)),
        (Biome::Empty, (50, 0, 50)),
    ];
    for (b, (red, green, blue)) in cases {
        assert_eq!(b.get_biome_material(), TileColor { red, green, blue });
    }
}
