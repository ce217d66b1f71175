//! Axial hex-grid layout: exact coordinate math, the canonical hexagon
//! mesh data, a diagonal debug texture, and random per-tile biome tags.
//!
//! All geometry is held in exact integer units so that every formula can
//! be stated and proved precisely: world x-coordinates are multiples of
//! the hexagon's inner radius `r`, world z-coordinates are multiples of
//! half the outer radius `R/2`, and texture coordinates are multiples of
//! one half.  A renderer scales these units by its floating-point radius
//! constants when it builds GPU buffers.

pub mod biome;
pub mod coords;
pub mod grid;
pub mod mesh;
pub mod texture;
