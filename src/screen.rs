//! Drawing glyphs into the frame buffer.
use vstd::prelude::*;
use crate::model::{collides, covers, drawn, pixel_of, sprite_bit, SCREEN_SIZE};

verus! {

/// Two different bits of one glyph (at most 15 rows) never land on the same cell,
/// however the drawing wraps.
pub proof fn lemma_pixels_distinct(x: u8, y: u8, i: int, j: int)
    requires
        0 <= i < j < 128,
    ensures
        pixel_of(x, y, i) != pixel_of(x, y, j),
{
    let ri = i / 8;
    let ci = i % 8;
    let rj = j / 8;
    let cj = j % 8;
    assert(i == 8 * ri + ci && 0 <= ci < 8 && j == 8 * rj + cj && 0 <= cj < 8 && 0 <= rj < 16);
    assert(ri <= rj) by (nonlinear_arith)
        requires i == 8 * ri + ci, j == 8 * rj + cj, 0 <= ci < 8, 0 <= cj < 8, i < j;
    let a = x + ci + (y + ri) * 64;
    let b = x + cj + (y + rj) * 64;
    assert(0 < b - a < 2048) by (nonlinear_arith)
        requires
            a == x + ci + (y + ri) * 64, b == x + cj + (y + rj) * 64, i == 8 * ri + ci,
            j == 8 * rj + cj, 0 <= ci < 8, 0 <= cj < 8, i < j, 0 <= ri <= rj < 16;
    assert(a % 2048 != b % 2048) by (nonlinear_arith)
        requires 0 < b - a < 2048, a >= 0;
}

/// Draws the `n`-row glyph stored at `start` in `mem` at `(x, y)`, flipping every
/// covered cell of `vram`; returns whether a lit cell went out.
pub fn draw_sprite(vram: &mut Vec<bool>, mem: &Vec<u8>, start: usize, x: u8, y: u8, n: usize) -> (collision: bool)
    requires
        old(vram)@.len() == SCREEN_SIZE,
        n < 16,
        start + n <= mem@.len(),
    ensures
        final(vram)@ == drawn(old(vram)@, mem@, start as int, x, y, n as int),
        collision == collides(old(vram)@, mem@, start as int, x, y, n as int),
{
    let ghost v0 = vram@;
    let mut collision = false;
    let mut j: usize = 0;
    let mem_len = mem.len();
    while j < 8 * n
        invariant
            j <= 8 * n,
            n < 16,
            start + n <= mem_len == mem@.len(),
            vram@.len() == SCREEN_SIZE,
            v0.len() == SCREEN_SIZE,
            forall|p: int| 0 <= p < SCREEN_SIZE ==>
                #[trigger] vram@[p] == (v0[p] != covers(mem@, start as int, x, y, j as int, p)),
            collision == exists|i: int|
                0 <= i < j && #[trigger] sprite_bit(mem@, start as int, i) && v0[pixel_of(x, y, i)],
        decreases 8 * n - j,
    {
        let row = j / 8;
        let col = j % 8;
        assert(row < n) by (nonlinear_arith)
            requires row == j / 8, j < 8 * n;
        let byte = mem[start + row];
        let bit = byte & (0x80u8 >> (col as u8)) != 0;
        assert(bit == sprite_bit(mem@, start as int, j as int));
        let ghost before = vram@;
        let ghost coll_before = collision;
        if bit {
            let p = (x as usize + col + (y as usize + row) * 64) % 2048;
            assert(p == pixel_of(x, y, j as int));
            assert(!covers(mem@, start as int, x, y, j as int, p as int)) by {
                assert forall|i: int| 0 <= i < j implies pixel_of(x, y, i) != p by {
                    lemma_pixels_distinct(x, y, i, j as int);
                }
            }
            if vram[p] {
                collision = true;
            }
            let flipped = !vram[p];
            vram[p] = flipped;
            assert forall|q: int| 0 <= q < SCREEN_SIZE implies
                #[trigger] vram@[q] == (v0[q] != covers(mem@, start as int, x, y, j + 1, q)) by {
                if q == p {
                    assert(sprite_bit(mem@, start as int, j as int) && pixel_of(x, y, j as int) == q);
                } else {
                    if covers(mem@, start as int, x, y, j + 1, q) {
                        let i = choose|i: int| 0 <= i < j + 1 && #[trigger] sprite_bit(mem@, start as int, i) && pixel_of(x, y, i) == q;
                        assert(i != j);
                    }
                }
            }
            proof {
                if collision && !coll_before {
                    assert(sprite_bit(mem@, start as int, j as int) && v0[pixel_of(x, y, j as int)]);
                }
            }
        } else {
            assert forall|q: int| 0 <= q < SCREEN_SIZE implies
                #[trigger] vram@[q] == (v0[q] != covers(mem@, start as int, x, y, j + 1, q)) by {
                if covers(mem@, start as int, x, y, j + 1, q) {
                    let i = choose|i: int| 0 <= i < j + 1 && #[trigger] sprite_bit(mem@, start as int, i) && pixel_of(x, y, i) == q;
                    assert(i != j);
                }
            }
        }
        j = j + 1;
    }
    assert(vram@ =~= drawn(v0, mem@, start as int, x, y, n as int));
    collision
}

} // verus!
