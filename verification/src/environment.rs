//! The texture that shows on the floor where the texture coordinates of a mesh
//! lead: eight colours in diagonal stripes.

use vstd::prelude::*;

verus! {

/// The width and the height of the texture, in texels.
pub const TEXTURE_SIZE: usize = 8;

/// The number of bytes to a texel: red, green, blue, opacity.
pub const TEXEL_BYTES: usize = 4;

/// The eight colours of the texture, four bytes each, as they lie in its
/// first row.
#[verifier::opaque]
pub open spec fn palette() -> Seq<u8> {
    seq![
        255, 102, 159, 255,
        255, 159, 102, 255,
        236, 255, 102, 255,
        121, 255, 102, 255,
        102, 255, 198, 255,
        102, 198, 255, 255,
        121, 102, 255, 255,
        236, 102, 255, 255,
    ]
}

/// The colour of the texel in column `x` of row `y`, as its place in the
/// palette. Each row is the row above it turned right by one texel.
pub open spec fn texel_colour(x: int, y: int) -> int {
    (x + TEXTURE_SIZE - y) % TEXTURE_SIZE as int
}

/// Byte `i` of the texture: rows from the top, texels from the left, four
/// bytes to a texel.
pub open spec fn texture_byte(i: int) -> u8 {
    let y = i / (TEXEL_BYTES * TEXTURE_SIZE) as int;
    let x = (i / TEXEL_BYTES as int) % TEXTURE_SIZE as int;
    palette()[TEXEL_BYTES * texel_colour(x, y) + i % TEXEL_BYTES as int]
}

/// The bytes of the whole texture.
pub open spec fn texture_bytes() -> Seq<u8> {
    Seq::new((TEXEL_BYTES * TEXTURE_SIZE * TEXTURE_SIZE) as nat, |i: int| texture_byte(i))
}

/// Makes the bytes of the texture: `TEXTURE_SIZE` rows of `TEXTURE_SIZE`
/// texels in the format of four bytes to a texel.
pub fn uv_debug_texture() -> (data: Vec<u8>)
    ensures
        data@ == texture_bytes(),
{
    let palette: [u8; 32] = [
        255, 102, 159, 255, 255, 159, 102, 255, 236, 255, 102, 255, 121, 255, 102, 255, 102, 255,
        198, 255, 102, 198, 255, 255, 121, 102, 255, 255, 236, 102, 255, 255,
    ];
    assert(palette@ =~= self::palette()) by {
        reveal(self::palette);
    }
    let row_bytes: usize = TEXEL_BYTES * TEXTURE_SIZE;
    let mut data: Vec<u8> = Vec::with_capacity(row_bytes * TEXTURE_SIZE);
    let mut y: usize = 0;
    while y < TEXTURE_SIZE
        invariant
            y <= TEXTURE_SIZE,
            row_bytes == 32,
            palette@ == self::palette(),
            data@.len() == row_bytes * y,
            forall|i: int| 0 <= i < data@.len() ==> data@[i] == texture_byte(i),
        decreases TEXTURE_SIZE - y,
    {
        // The palette, turned right by four bytes for each row above this one.
        let turn: usize = row_bytes - TEXEL_BYTES * y;
        let mut k: usize = 0;
        while k < row_bytes
            invariant
                y < TEXTURE_SIZE,
                k <= row_bytes,
                row_bytes == 32,
                turn == row_bytes - TEXEL_BYTES * y,
                palette@ == self::palette(),
                data@.len() == row_bytes * y + k,
                forall|i: int| 0 <= i < data@.len() ==> data@[i] == texture_byte(i),
            decreases row_bytes - k,
        {
            proof {
                let i = row_bytes * y + k;
                assert(i / 32 == y && (i / 4) % 8 == k / 4 && i % 4 == k % 4);
                assert((k + turn) % 32 == 4 * texel_colour(k as int / 4, y as int) + k % 4);
            }
            data.push(palette[(k + turn) % row_bytes]);
            k = k + 1;
        }
        y = y + 1;
    }
    assert(data@ =~= texture_bytes());
    data
}

/// Every row but the first is the row above it turned right by one texel, the
/// last texel coming round to the front; the first row is the palette.
pub proof fn lemma_texture_rows_turn(x: int, y: int, channel: int)
    requires
        0 <= x < TEXTURE_SIZE,
        0 <= y < TEXTURE_SIZE,
        0 <= channel < TEXEL_BYTES,
    ensures
        ({
            let here = TEXEL_BYTES * (TEXTURE_SIZE * y + x) + channel;
            let left = (x + TEXTURE_SIZE - 1) % TEXTURE_SIZE as int;
            let above = TEXEL_BYTES * (TEXTURE_SIZE * (y - 1) + left) + channel;
            &&& y == 0 ==> texture_bytes()[here] == palette()[TEXEL_BYTES * x + channel]
            &&& y > 0 ==> texture_bytes()[here] == texture_bytes()[above]
        }),
{
    let here = 4 * (8 * y + x) + channel;
    assert(here / 32 == y && (here / 4) % 8 == x && here % 4 == channel);
    if y > 0 {
        let left = (x + 7) % 8;
        let above = 4 * (8 * (y - 1) + left) + channel;
        assert(above / 32 == y - 1 && (above / 4) % 8 == left && above % 4 == channel);
        assert(texel_colour(left, y - 1) == texel_colour(x, y));
    } else {
        assert(texel_colour(x, 0) == x);
    }
}

} // verus!
