//! The monochrome framebuffer and how sprites combine with it.
//!
//! Pixels are stored row by row: pixel `(col, row)` has index
//! `col + 64 * row`.

use vstd::prelude::*;

verus! {

/// Pixels per row.
pub const SCREEN_WIDTH: usize = 64;

/// Rows on the screen.
pub const SCREEN_HEIGHT: usize = 32;

/// Width of a sprite row in pixels.
pub const SPRITE_WIDTH: u8 = 8;

/// Side of the square that stands for one pixel in a window.
pub const SCALE: usize = 10;

/// A rectangle in window coordinates.
#[derive(Clone, Copy, Debug, PartialEq, Eq, Structural)]
pub struct Rect {
    /// Left edge.
    pub x: i32,
    /// Top edge.
    pub y: i32,
    /// Width.
    pub width: i32,
    /// Height.
    pub height: i32,
}

/// The square that stands for pixel `(col, row)` in a window.
pub open spec fn pixel_rect(col: int, row: int) -> Rect {
    Rect { x: (10 * col) as i32, y: (10 * row) as i32, width: 10, height: 10 }
}

/// The place of pixel `(col, row)` in the order in which a window is
/// painted: column by column, each from the top.
pub open spec fn paint_rank(r: Rect) -> int {
    (r.x / 10) * 32 + r.y / 10
}

/// Whether pixel `(col, row)` is on the screen and lit.
pub open spec fn lit(pixels: Seq<bool>, col: int, row: int) -> bool {
    0 <= col < 64 && 0 <= row < 32 && pixels[col + 64 * row]
}

/// Whether `r` is the square of some lit pixel.
pub open spec fn is_lit_rect(pixels: Seq<bool>, r: Rect) -> bool {
    exists|col: int, row: int| lit(pixels, col, row) && r == #[trigger] pixel_rect(col, row)
}

/// Width and height of the window that shows the whole screen.
pub fn window_size() -> (size: (i32, i32))
    ensures
        size.0 == 640,
        size.1 == 320,
{
    ((SCREEN_WIDTH * SCALE) as i32, (SCREEN_HEIGHT * SCALE) as i32)
}

/// The squares to paint for a framebuffer: one for each lit pixel and no
/// other, in painting order.
pub fn lit_rectangles(pixels: &[bool; 2048]) -> (rects: Vec<Rect>)
    ensures
        forall|k: int| 0 <= k < rects.len() ==> is_lit_rect(pixels@, #[trigger] rects[k]),
        forall|col: int, row: int|
            lit(pixels@, col, row) ==> rects@.contains(#[trigger] pixel_rect(col, row)),
        forall|j: int, k: int|
            0 <= j < k < rects.len() ==> paint_rank(#[trigger] rects[j]) < paint_rank(
                #[trigger] rects[k],
            ),
{
    let mut rects: Vec<Rect> = Vec::new();
    let mut x: usize = 0;
    while x < SCREEN_WIDTH
        invariant
            x <= 64,
            forall|k: int| 0 <= k < rects.len() ==> is_lit_rect(pixels@, #[trigger] rects[k]),
            forall|col: int, row: int|
                lit(pixels@, col, row) && col < x ==> rects@.contains(
                    #[trigger] pixel_rect(col, row),
                ),
            forall|j: int, k: int|
                0 <= j < k < rects.len() ==> paint_rank(#[trigger] rects[j]) < paint_rank(
                    #[trigger] rects[k],
                ),
            forall|k: int| 0 <= k < rects.len() ==> paint_rank(#[trigger] rects[k]) < x * 32,
        decreases 64 - x,
    {
        let mut y: usize = 0;
        while y < SCREEN_HEIGHT
            invariant
                x < 64,
                y <= 32,
                forall|k: int| 0 <= k < rects.len() ==> is_lit_rect(pixels@, #[trigger] rects[k]),
                forall|col: int, row: int|
                    lit(pixels@, col, row) && (col < x || (col == x && row < y))
                        ==> rects@.contains(#[trigger] pixel_rect(col, row)),
                forall|j: int, k: int|
                    0 <= j < k < rects.len() ==> paint_rank(#[trigger] rects[j]) < paint_rank(
                        #[trigger] rects[k],
                    ),
                forall|k: int|
                    0 <= k < rects.len() ==> paint_rank(#[trigger] rects[k]) < x * 32 + y,
            decreases 32 - y,
        {
            let idx: usize = y * SCREEN_WIDTH + x;
            if pixels[idx] {
                let ghost before = rects@;
                let rect = Rect {
                    x: (x * SCALE) as i32,
                    y: (y * SCALE) as i32,
                    width: SCALE as i32,
                    height: SCALE as i32,
                };
                rects.push(rect);
                proof {
                    assert(rect == pixel_rect(x as int, y as int));
                    assert forall|col: int, row: int|
                        lit(pixels@, col, row) && (col < x || (col == x && row < y + 1))
                        implies rects@.contains(#[trigger] pixel_rect(col, row)) by {
                        if col == x && row == y {
                            assert(rects@[before.len() as int] == pixel_rect(col, row));
                        } else {
                            let k = choose|k: int|
                                0 <= k < before.len() && before[k] == pixel_rect(col, row);
                            assert(rects@[k] == pixel_rect(col, row));
                        }
                    }
                }
            }
            y += 1;
        }
        x += 1;
    }
    rects
}

/// A framebuffer with every pixel off.
pub open spec fn blank() -> Seq<bool> {
    Seq::new(2048, |p: int| false)
}

/// Pixel `col` of a sprite row, counted from the left: the leftmost pixel
/// is the most significant bit.
pub open spec fn sprite_bit(row: u8, col: int) -> bool {
    row & (0x80u8 >> (col as u8)) != 0
}

/// Index of the pixel reached from `(vx, vy)` by going `col` to the right
/// and `row` down, wrapping at the screen's edges.
pub open spec fn pixel_index(vx: int, vy: int, col: int, row: int) -> int {
    (vx + col) % 64 + 64 * ((vy + row) % 32)
}

/// Whether `sprite`, one byte per row, placed with its top left corner at
/// `(vx, vy)`, has a set bit on pixel `p`. A sprite of at most 32 rows has
/// at most one bit on any pixel.
pub open spec fn sprite_covers(sprite: Seq<u8>, vx: int, vy: int, p: int) -> bool {
    let col = (p % 64 - vx) % 64;
    let row = (p / 64 - vy) % 32;
    col < 8 && row < sprite.len() && sprite_bit(sprite[row], col)
}

/// The framebuffer after drawing: every covered pixel is inverted.
pub open spec fn draw_pixels(display: Seq<bool>, sprite: Seq<u8>, vx: int, vy: int) -> Seq<bool> {
    Seq::new(2048, |p: int| display[p] != sprite_covers(sprite, vx, vy, p))
}

/// Whether drawing turns some lit pixel off.
pub open spec fn draw_collides(display: Seq<bool>, sprite: Seq<u8>, vx: int, vy: int) -> bool {
    exists|p: int| 0 <= p < 2048 && display[p] && #[trigger] sprite_covers(sprite, vx, vy, p)
}

/// Whether the part of the sprite that comes before row `r`, column `c`
/// in reading order has a set bit on pixel `p`.
pub open spec fn sprite_covers_before(
    sprite: Seq<u8>,
    vx: int,
    vy: int,
    r: int,
    c: int,
    p: int,
) -> bool {
    let col = (p % 64 - vx) % 64;
    let row = (p / 64 - vy) % 32;
    col < 8 && (row < r || (row == r && col < c)) && sprite_bit(sprite[row], col)
}

/// Whether pixel `p` is lit in `display` and covered by the part of the
/// sprite before row `r`, column `c`.
pub open spec fn lit_under_sprite(
    display: Seq<bool>,
    sprite: Seq<u8>,
    vx: int,
    vy: int,
    r: int,
    c: int,
    p: int,
) -> bool {
    0 <= p < 2048 && display[p] && sprite_covers_before(sprite, vx, vy, r, c, p)
}

/// The pixel reached from `(vx, vy)` is on the screen, and its offset from
/// `(vx, vy)` is what was added.
pub proof fn lemma_pixel_index_offsets(vx: int, vy: int, col: int, row: int)
    requires
        0 <= vx,
        0 <= vy,
        0 <= col < 64,
        0 <= row < 32,
    ensures
        0 <= pixel_index(vx, vy, col, row) < 2048,
        (pixel_index(vx, vy, col, row) % 64 - vx) % 64 == col,
        (pixel_index(vx, vy, col, row) / 64 - vy) % 32 == row,
{
}

/// Every pixel is reached from `(vx, vy)` by exactly its own offset.
pub proof fn lemma_pixel_index_inverse(vx: int, vy: int, p: int)
    requires
        0 <= vx,
        0 <= vy,
        0 <= p < 2048,
    ensures
        pixel_index(vx, vy, (p % 64 - vx) % 64, (p / 64 - vy) % 32) == p,
{
}

/// The covered pixels are exactly those that the set bits land on: bit
/// `c` of row `r` lands on the pixel `c` to the right of and `r` below
/// `(vx, vy)`, wrapping at the edges.
pub proof fn lemma_covered_pixels_are_set_bits(sprite: Seq<u8>, vx: int, vy: int)
    requires
        0 <= vx,
        0 <= vy,
        sprite.len() <= 32,
    ensures
        forall|r: int, c: int|
            0 <= r < sprite.len() && 0 <= c < 8 ==> sprite_covers(
                sprite,
                vx,
                vy,
                #[trigger] pixel_index(vx, vy, c, r),
            ) == sprite_bit(sprite[r], c),
        forall|p: int|
            0 <= p < 2048 && #[trigger] sprite_covers(sprite, vx, vy, p) ==> exists|r: int, c: int|
                0 <= r < sprite.len() && 0 <= c < 8 && sprite_bit(sprite[r], c) && p
                    == #[trigger] pixel_index(vx, vy, c, r),
{
    assert forall|r: int, c: int| 0 <= r < sprite.len() && 0 <= c < 8 implies sprite_covers(
        sprite,
        vx,
        vy,
        #[trigger] pixel_index(vx, vy, c, r),
    ) == sprite_bit(sprite[r], c) by {
        lemma_pixel_index_offsets(vx, vy, c, r);
    }
    assert forall|p: int| 0 <= p < 2048 && #[trigger] sprite_covers(sprite, vx, vy, p) implies exists|
        r: int,
        c: int,
    |
        0 <= r < sprite.len() && 0 <= c < 8 && sprite_bit(sprite[r], c) && p
            == #[trigger] pixel_index(vx, vy, c, r) by {
        lemma_pixel_index_inverse(vx, vy, p);
        let c = (p % 64 - vx) % 64;
        let r = (p / 64 - vy) % 32;
        assert(p == pixel_index(vx, vy, c, r));
    }
}

/// Going one column further in the sprite adds at most the one pixel that
/// this column of this row lands on, and that pixel was not covered
/// before.
pub proof fn lemma_covers_one_more(sprite: Seq<u8>, vx: int, vy: int, r: int, c: int, p: int)
    requires
        0 <= vx,
        0 <= vy,
        0 <= r < 32,
        0 <= c < 8,
        0 <= p < 2048,
    ensures
        sprite_covers_before(sprite, vx, vy, r, c + 1, p) == (sprite_covers_before(
            sprite,
            vx,
            vy,
            r,
            c,
            p,
        ) || (p == pixel_index(vx, vy, c, r) && sprite_bit(sprite[r], c))),
        p == pixel_index(vx, vy, c, r) ==> !sprite_covers_before(sprite, vx, vy, r, c, p),
{
    lemma_pixel_index_inverse(vx, vy, p);
    lemma_pixel_index_offsets(vx, vy, c, r);
}

/// Draws the sprite of `rows` rows stored in `memory` from `start` onto
/// `display`, with its top left corner at `(vx, vy)`: each set bit inverts
/// the pixel it lands on, and positions beyond an edge continue from the
/// opposite edge. Returns whether a lit pixel was put out. The sprite must
/// lie inside memory and be no taller than the screen, so that no two of
/// its bits land on one pixel.
pub fn draw_sprite(
    display: &mut [bool; 2048],
    memory: &[u8; 4096],
    start: usize,
    rows: usize,
    vx: u8,
    vy: u8,
) -> (collision: bool)
    requires
        rows <= 32,
        start + rows <= 4096,
    ensures
        final(display)@ == draw_pixels(
            old(display)@,
            memory@.subrange(start as int, start + rows),
            vx as int,
            vy as int,
        ),
        collision == draw_collides(
            old(display)@,
            memory@.subrange(start as int, start + rows),
            vx as int,
            vy as int,
        ),
    no_unwind
{
    let ghost before = display@;
    let ghost sprite = memory@.subrange(start as int, start + rows);
    let ghost x = vx as int;
    let ghost y = vy as int;
    let mut flipped = false;
    let mut row: usize = 0;
    while row < rows
        invariant
            row <= rows <= 32,
            start + rows <= 4096,
            sprite == memory@.subrange(start as int, start + rows),
            x == vx,
            y == vy,
            before.len() == 2048,
            forall|p: int|
                0 <= p < 2048 ==> #[trigger] display@[p] == (before[p] != sprite_covers_before(
                    sprite,
                    x,
                    y,
                    row as int,
                    0,
                    p,
                )),
            flipped <==> exists|p: int|
                #[trigger] lit_under_sprite(before, sprite, x, y, row as int, 0, p),
        decreases rows - row,
    {
        let pixels: u8 = memory[start + row];
        let mut col: u8 = 0;
        while col < SPRITE_WIDTH
            invariant
                col <= 8,
                row < rows <= 32,
                x == vx,
                y == vy,
                before.len() == 2048,
                sprite.len() == rows,
                pixels == sprite[row as int],
                forall|p: int|
                    0 <= p < 2048 ==> #[trigger] display@[p] == (before[p]
                        != sprite_covers_before(sprite, x, y, row as int, col as int, p)),
                flipped <==> exists|p: int|
                    #[trigger] lit_under_sprite(before, sprite, x, y, row as int, col as int, p),
            decreases 8 - col,
        {
            let ghost was_flipped = flipped;
            let ghost target = pixel_index(x, y, col as int, row as int);
            if pixels & (0x80u8 >> col) != 0 {
                let px: usize = (vx as usize + col as usize) % SCREEN_WIDTH;
                let py: usize = (vy as usize + row) % SCREEN_HEIGHT;
                let idx: usize = px + SCREEN_WIDTH * py;
                flipped = flipped || display[idx];
                display[idx] = !display[idx];
            }
            proof {
                assert forall|p: int| 0 <= p < 2048 implies #[trigger] display@[p] == (before[p]
                    != sprite_covers_before(sprite, x, y, row as int, col + 1, p)) by {
                    lemma_covers_one_more(sprite, x, y, row as int, col as int, p);
                }
                // A lit pixel under the sprite so far is one that was
                // under it before this column, or this column's own.
                assert forall|p: int| #[trigger]
                    lit_under_sprite(before, sprite, x, y, row as int, col + 1, p) == (
                    lit_under_sprite(before, sprite, x, y, row as int, col as int, p) || (p
                        == target && before[p] && sprite_bit(pixels, col as int))) by {
                    if 0 <= p < 2048 {
                        lemma_covers_one_more(sprite, x, y, row as int, col as int, p);
                    }
                }
                if flipped && !was_flipped {
                    assert(lit_under_sprite(before, sprite, x, y, row as int, col + 1, target));
                }
                if was_flipped {
                    let w = choose|p: int|
                        lit_under_sprite(before, sprite, x, y, row as int, col as int, p);
                    assert(lit_under_sprite(before, sprite, x, y, row as int, col + 1, w));
                }
            }
            col += 1;
        }
        proof {
            assert forall|p: int|
                #![trigger lit_under_sprite(before, sprite, x, y, row as int, 8, p)]
                #![trigger lit_under_sprite(before, sprite, x, y, row + 1, 0, p)]
                lit_under_sprite(before, sprite, x, y, row as int, 8, p) == lit_under_sprite(
                    before,
                    sprite,
                    x,
                    y,
                    row + 1,
                    0,
                    p,
                ) by {}
        }
        row += 1;
    }
    proof {
        if flipped {
            let w = choose|p: int| lit_under_sprite(before, sprite, x, y, rows as int, 0, p);
            assert(sprite_covers(sprite, x, y, w));
        }
        if draw_collides(before, sprite, x, y) {
            let w = choose|p: int|
                0 <= p < 2048 && before[p] && #[trigger] sprite_covers(sprite, x, y, p);
            assert(lit_under_sprite(before, sprite, x, y, rows as int, 0, w));
        }
    }
    flipped
}

} // verus!
