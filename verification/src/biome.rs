//! Per-tile biome tags: a decorative label drawn uniformly at random for
//! each grid cell when the grid is built, plus the display colour that
//! belongs to each label.
//!
//! The draw range is `0..6`, which covers the six ordinary labels; the
//! `Empty` label is outside the range and is therefore never drawn.

use vstd::prelude::*;

verus! {

/// The decorative label attached to one grid cell.
#[derive(Debug, Clone, Copy, PartialEq, Eq, Structural)]
pub enum Biome {
    Grassland,
    Forest,
    Ocean,
    Sand,
    Desert,
    Mountain,
    Empty,
}

/// A display colour as red/green/blue intensities in hundredths
/// (`0` is no intensity, `100` full intensity).  Every colour in the
/// biome table is an exact multiple of one hundredth, so the channels
/// are held as integers; a renderer divides by `100` when it builds a
/// material.
#[derive(Debug, Clone, Copy, PartialEq, Eq, Structural)]
pub struct TileColor {
    pub red: u8,
    pub green: u8,
    pub blue: u8,
}

/// The label that a uniform draw `d` selects: the six ordinary labels in
/// order for `0..6`, and `Empty` for anything outside that range.
pub open spec fn biome_of_draw(d: int) -> Biome {
    if d == 0 {
        Biome::Grassland
    } else if d == 1 {
        Biome::Forest
    } else if d == 2 {
        Biome::Ocean
    } else if d == 3 {
        Biome::Sand
    } else if d == 4 {
        Biome::Desert
    } else if d == 5 {
        Biome::Mountain
    } else {
        Biome::Empty
    }
}

/// Maps one uniform draw to its biome label.
pub fn biome_from_draw(d: u8) -> (b: Biome)
    ensures
        b == biome_of_draw(d as int),
{
    match d {
        0 => Biome::Grassland,
        1 => Biome::Forest,
        2 => Biome::Ocean,
        3 => Biome::Sand,
        4 => Biome::Desert,
        5 => Biome::Mountain,
        _ => Biome::Empty,
    }
}

/// Relies on rand's `thread_rng` and `Rng::gen_range`: a draw from the
/// non-empty range `0..6` does not panic and returns a value of that
/// range, chosen uniformly.  Nothing more can be promised of a random
/// result, so the contract gives only the bound.
#[verifier::external_body]
fn draw_biome_index() -> (r: u8)
    ensures
        r < 6,
{
    rand::Rng::gen_range(&mut rand::thread_rng(), 0..6u8)
}

/// Draws one biome label uniformly at random.
///
/// Whatever the draw, the result is one of the six ordinary labels:
/// `Empty` lies outside the draw range and is never produced.
pub fn generate_biome() -> (b: Biome)
    ensures
        b != Biome::Empty,
        exists|d: int| 0 <= d < 6 && b == biome_of_draw(d),
{
    let d: u8 = draw_biome_index();
    biome_from_draw(d)
}

/// The display colour of each biome label.
pub open spec fn biome_color(b: Biome) -> TileColor {
    match b {
        Biome::Grassland => (TileColor { red: 0, green: 100, blue: 0 }),
        Biome::Forest => (TileColor { red: 0, green: 50, blue: 0 }),
        Biome::Ocean => (TileColor { red: 10, green: 10, blue: 44 }),
        Biome::Sand => (TileColor { red: 96, green: 96, blue: 86 }),
        Biome::Desert => (TileColor { red: 100, green: 100, blue: 0 }),
        Biome::Mountain => (TileColor { red: 75, green: 75, blue: 75 }),
        Biome::Empty => (TileColor { red: 50, green: 0, blue: 50 }),
    }
}

impl Biome {
    /// The colour a renderer paints this biome with.
    pub fn get_biome_material(&self) -> (c: TileColor)
        ensures
            c == biome_color(*self),
    {
        match self {
            Biome::Grassland => TileColor { red: 0, green: 100, blue: 0 },
            Biome::Forest => TileColor { red: 0, green: 50, blue: 0 },
            Biome::Ocean => TileColor { red: 10, green: 10, blue: 44 },
            Biome::Sand => TileColor { red: 96, green: 96, blue: 86 },
            Biome::Desert => TileColor { red: 100, green: 100, blue: 0 },
            Biome::Mountain => TileColor { red: 75, green: 75, blue: 75 },
            Biome::Empty => TileColor { red: 50, green: 0, blue: 50 },
        }
    }
}

} // verus!
