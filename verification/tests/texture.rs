//! Tests of the generated debug texture: an 8×8 RGBA image whose rows
//! cycle a 32-byte palette, advanced one pixel (four bytes) per row.

use hexgrid::texture::uv_debug_texture;

const PALETTE: [u8; 32] = [
    255, 102, 159, 255, 255, 159, 102, 255, 236, 255, 102, 255, 121, 255, 102, 255, 102, 255,
    198, 255, 102, 198, 255, 255, 121, 102, 255, 255, 236, 102, 255, 255,
];

#[test]
fn texture_is_eight_by_eight_rgba() {
    let t = uv_debug_texture();
    assert_eq!(t.width, 8);
    assert_eq!(t.height, 8);
    assert_eq!(t.data.len(), 8 * 8 * 4);
}

#[test]
fn texture_first_row_is_the_palette() {
    let t = uv_debug_texture();
    assert_eq!(&t.data[0..32], &PALETTE[..]);
}

#[test]
fn texture_rows_rotate_right_one_pixel() {
    let t = uv_debug_texture();
    for y in 0..7 {
        let row = &t.data[32 * y..32 * y + 32];
        let next = &t.data[32 * (y + 1)..32 * (y + 1) + 32];
        let mut rotated = row.to_vec();
        rotated.rotate_right(4);
        assert_eq!(next, &rotated[..], "row {} is not row {} rotated", y + 1, y);
    }
}

#[test]
fn texture_row_offsets_accumulate() {
    let t = uv_debug_texture();
    for y in 0..8 {
        let mut expected = PALETTE.to_vec();
        expected.rotate_right(4 * y);
        assert_eq!(&t.data[32 * y..32 * y + 32], &expected[..]);
    }
}
