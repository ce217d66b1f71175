//! The procedurally generated debug texture: an 8×8 RGBA image whose
//! rows are cyclic permutations of a 32-byte palette, advanced by one
//! RGBA pixel (four bytes) per row.  The diagonal colour banding makes
//! UV mapping visible when the texture is used as a placeholder
//! material.

use vstd::prelude::*;

verus! {

/// Side length of the debug texture in pixels.
pub const TEXTURE_SIZE: usize = 8;

/// Raw image data: `width * height` RGBA pixels, four bytes each, rows
/// stored top to bottom.
#[derive(Debug, PartialEq, Eq)]
pub struct TextureData {
    pub width: u32,
    pub height: u32,
    pub data: Vec<u8>,
}

/// The 32-byte RGBA palette that seeds every row.
pub open spec fn texture_palette() -> Seq<u8> {
    seq![
        255u8, 102, 159, 255, 255, 159, 102, 255, 236, 255, 102, 255, 121, 255, 102, 255,
        102, 255, 198, 255, 102, 198, 255, 255, 121, 102, 255, 255, 236, 102, 255, 255,
    ]
}

/// `s` rotated right by `k` places: the element at index `i` of the
/// result came from index `(i - k) mod len`.
pub open spec fn rot_right(s: Seq<u8>, k: int) -> Seq<u8> {
    Seq::new(s.len(), |i: int| s[(i - k) % (s.len() as int)])
}

impl TextureData {
    /// The bytes of row `y`.
    pub open spec fn row(self, y: int) -> Seq<u8> {
        self.data@.subrange(32 * y, 32 * y + 32)
    }
}

/// Builds the 8×8 debug texture: row `y` is the palette rotated right
/// by `y` pixels (`4*y` bytes).
pub fn uv_debug_texture() -> (t: TextureData)
    ensures
        t.width == TEXTURE_SIZE,
        t.height == TEXTURE_SIZE,
        t.data@.len() == 256,
        forall|y: int| 0 <= y < 8 ==> #[trigger] t.row(y) == rot_right(texture_palette(), 4 * y),
{
    let mut palette_row: Vec<u8> = vec![
        255, 102, 159, 255, 255, 159, 102, 255, 236, 255, 102, 255, 121, 255, 102, 255,
        102, 255, 198, 255, 102, 198, 255, 255, 121, 102, 255, 255, 236, 102, 255, 255,
    ];
    proof {
        assert(palette_row@ =~= rot_right(texture_palette(), 0));
    }
    let mut data: Vec<u8> = Vec::new();
    let mut y: usize = 0;
    while y < 8
        invariant
            y <= 8,
            palette_row@.len() == 32,
            palette_row@ == rot_right(texture_palette(), 4 * y),
            data@.len() == 32 * y,
            forall|yy: int|
                0 <= yy < y ==> #[trigger] data@.subrange(32 * yy, 32 * yy + 32) == rot_right(
                    texture_palette(),
                    4 * yy,
                ),
        decreases 8 - y,
    {
        let ghost data0 = data@;
        let mut j: usize = 0;
        while j < 32
            invariant
                j <= 32,
                palette_row@.len() == 32,
                data@ == data0 + palette_row@.subrange(0, j as int),
            decreases 32 - j,
        {
            data.push(palette_row[j]);
            proof {
                assert(data@ =~= data0 + palette_row@.subrange(0, j + 1));
            }
            j = j + 1;
        }
        proof {
            assert(data@ =~= data0 + palette_row@);
        }
        let ghost pr = palette_row@;
        let mut rotated: Vec<u8> = Vec::new();
        let mut i: usize = 28;
        while i < 32
            invariant
                28 <= i <= 32,
                palette_row@ == pr,
                pr.len() == 32,
                rotated@ == pr.subrange(28, i as int),
            decreases 32 - i,
        {
            rotated.push(palette_row[i]);
            proof {
                assert(rotated@ =~= pr.subrange(28, i + 1));
            }
            i = i + 1;
        }
        let mut i2: usize = 0;
        while i2 < 28
            invariant
                i2 <= 28,
                palette_row@ == pr,
                pr.len() == 32,
                rotated@ == pr.subrange(28, 32) + pr.subrange(0, i2 as int),
            decreases 28 - i2,
        {
            rotated.push(palette_row[i2]);
            proof {
                assert(rotated@ =~= pr.subrange(28, 32) + pr.subrange(0, i2 + 1));
            }
            i2 = i2 + 1;
        }
        proof {
            assert forall|k: int| 0 <= k < 32 implies rotated@[k] == rot_right(
                texture_palette(),
                4 * (y + 1),
            )[k] by {
                assert(rotated@[k] == if k < 4 {
                    pr[k + 28]
                } else {
                    pr[k - 4]
                });
            }
            assert(rotated@ =~= rot_right(texture_palette(), 4 * (y + 1)));
        }
        palette_row = rotated;
        let ghost yy0 = y as int;
        y = y + 1;
        proof {
            assert forall|yy: int| 0 <= yy < y implies #[trigger] data@.subrange(
                32 * yy,
                32 * yy + 32,
            ) == rot_right(texture_palette(), 4 * yy) by {
                if yy < yy0 {
                    assert(data@.subrange(32 * yy, 32 * yy + 32) =~= data0.subrange(
                        32 * yy,
                        32 * yy + 32,
                    ));
                } else {
                    assert(data@.subrange(32 * yy, 32 * yy + 32) =~= pr);
                }
            }
        }
    }
    TextureData { width: 8, height: 8, data }
}

/// Each row of the debug texture is the row above it rotated right by
/// one RGBA pixel, i.e. by four bytes.
pub proof fn lemma_texture_rows_rotate(t: TextureData, y: int)
    requires
        t.data@.len() == 256,
        forall|yy: int| 0 <= yy < 8 ==> #[trigger] t.row(yy) == rot_right(texture_palette(), 4 * yy),
        0 <= y < 7,
    ensures
        t.row(y + 1) == rot_right(t.row(y), 4),
{
    assert(t.row(y + 1) =~= rot_right(t.row(y), 4));
}

} // verus!
