//! The monochrome display: what drawing a sprite means, and the routine that
//! does it.
//!
//! The framebuffer is a sequence of 2048 cells, row after row, 64 cells to a
//! row. A sprite is a sequence of bytes, one byte per row, the most
//! significant bit leftmost. Drawing XORs the sprite onto the framebuffer and
//! wraps around both edges of the screen.

use vstd::prelude::*;

verus! {

/// Cells in one row of the screen.
pub const SCREEN_WIDTH: usize = 64;

/// Rows of the screen.
pub const SCREEN_HEIGHT: usize = 32;

/// Cells of the whole screen.
pub const PIXELS: usize = 2048;

/// Whether the bit for column `col` of a sprite row is set; column 0 is the
/// most significant bit.
pub open spec fn bit_at(byte: u8, col: int) -> bool {
    (byte >> ((7 - col) as u8)) & 1 == 1
}

/// Whether the sprite has a set pixel at (`row`, `col`), counted from the
/// sprite's top left corner.
pub open spec fn sprite_pixel(sprite: Seq<u8>, row: int, col: int) -> bool {
    0 <= row < sprite.len() && 0 <= col < 8 && bit_at(sprite[row], col)
}

/// The sprite row that lands on `cell` when the sprite's top edge is at
/// screen row `py`, wrapping around the bottom edge.
pub open spec fn row_of(cell: int, py: int) -> int {
    (cell / 64 - py) % 32
}

/// The sprite column that lands on `cell` when the sprite's left edge is at
/// screen column `px`, wrapping around the right edge.
pub open spec fn col_of(cell: int, px: int) -> int {
    (cell % 64 - px) % 64
}

/// Whether a set pixel of the sprite, placed at (`px`, `py`), lands on `cell`.
pub open spec fn covers(sprite: Seq<u8>, px: int, py: int, cell: int) -> bool {
    sprite_pixel(sprite, row_of(cell, py), col_of(cell, px))
}

/// The framebuffer after the sprite was drawn at (`px`, `py`): every cell
/// that a set pixel lands on is flipped, every other cell is kept.
pub open spec fn blit(fb: Seq<bool>, sprite: Seq<u8>, px: int, py: int) -> Seq<bool> {
    Seq::new(fb.len(), |cell: int| fb[cell] != covers(sprite, px, py, cell))
}

/// Whether drawing the sprite at (`px`, `py`) turns some lit cell off.
pub open spec fn collides(fb: Seq<bool>, sprite: Seq<u8>, px: int, py: int) -> bool {
    exists|cell: int| 0 <= cell < fb.len() && fb[cell] && #[trigger] covers(sprite, px, py, cell)
}

/// Whether drawing the sprite at (`px`, `py`) lights some dark cell.
pub open spec fn lights(fb: Seq<bool>, sprite: Seq<u8>, px: int, py: int) -> bool {
    exists|cell: int| 0 <= cell < fb.len() && !fb[cell] && #[trigger] covers(sprite, px, py, cell)
}

/// Among the first `upto` cells, how many the sprite lands on that are in
/// state `lit`.
pub open spec fn count_covered(
    fb: Seq<bool>,
    sprite: Seq<u8>,
    px: int,
    py: int,
    lit: bool,
    upto: int,
) -> nat
    decreases upto,
{
    if upto <= 0 {
        0
    } else {
        let rest = count_covered(fb, sprite, px, py, lit, upto - 1);
        if fb[upto - 1] == lit && covers(sprite, px, py, upto - 1) {
            rest + 1
        } else {
            rest
        }
    }
}

/// How many lit cells drawing the sprite at (`px`, `py`) turns off.
pub open spec fn collision_count(fb: Seq<bool>, sprite: Seq<u8>, px: int, py: int) -> nat {
    count_covered(fb, sprite, px, py, true, fb.len() as int)
}

/// How many dark cells drawing the sprite at (`px`, `py`) lights.
pub open spec fn lit_count(fb: Seq<bool>, sprite: Seq<u8>, px: int, py: int) -> nat {
    count_covered(fb, sprite, px, py, false, fb.len() as int)
}

/// The value of the flag register after a draw.
pub open spec fn flag_of(hit: bool) -> u8 {
    if hit {
        1
    } else {
        0
    }
}

/// The part of the sprite that has been drawn when the routine stands at
/// (`row`, `col`): the pixels of earlier rows, and of this row to the left.
pub open spec fn drawn_before(
    sprite: Seq<u8>,
    px: int,
    py: int,
    cell: int,
    row: int,
    col: int,
) -> bool {
    covers(sprite, px, py, cell) && (row_of(cell, py) < row || (row_of(cell, py) == row && col_of(
        cell,
        px,
    ) < col))
}

/// The cell that pixel (`row`, `col`) of a sprite at (`px`, `py`) lands on.
pub open spec fn target_cell(px: int, py: int, row: int, col: int) -> int {
    ((py + row) % 32) * 64 + (px + col) % 64
}

/// A pixel's target cell lies on the screen and leads back to the pixel.
pub proof fn lemma_target_cell(px: int, py: int, row: int, col: int)
    requires
        0 <= px,
        0 <= py,
        0 <= row < 32,
        0 <= col < 64,
    ensures
        0 <= target_cell(px, py, row, col) < 2048,
        row_of(target_cell(px, py, row, col), py) == row,
        col_of(target_cell(px, py, row, col), px) == col,
{
    let cy = (py + row) % 32;
    let cx = (px + col) % 64;
    let cell = cy * 64 + cx;
    assert(cell / 64 == cy);
    assert(cell % 64 == cx);
    assert((cy - py) % 32 == row);
    assert((cx - px) % 64 == col);
}

/// Two cells of the screen that receive the same sprite pixel are one cell.
pub proof fn lemma_one_cell_per_pixel(a: int, b: int, px: int, py: int)
    requires
        0 <= a < 2048,
        0 <= b < 2048,
        row_of(a, py) == row_of(b, py),
        col_of(a, px) == col_of(b, px),
    ensures
        a == b,
{
    assert(a / 64 == b / 64);
    assert(a % 64 == b % 64);
}

/// A count is positive exactly when a counted cell exists.
pub proof fn lemma_count_positive(
    fb: Seq<bool>,
    sprite: Seq<u8>,
    px: int,
    py: int,
    lit: bool,
    upto: int,
)
    requires
        0 <= upto <= fb.len(),
    ensures
        count_covered(fb, sprite, px, py, lit, upto) > 0 <==> exists|cell: int|
            0 <= cell < upto && fb[cell] == lit && #[trigger] covers(sprite, px, py, cell),
    decreases upto,
{
    if upto > 0 {
        lemma_count_positive(fb, sprite, px, py, lit, upto - 1);
        if count_covered(fb, sprite, px, py, lit, upto) > 0 {
            if fb[upto - 1] == lit && covers(sprite, px, py, upto - 1) {
            } else {
                let cell = choose|cell: int|
                    0 <= cell < upto - 1 && fb[cell] == lit && #[trigger] covers(
                        sprite,
                        px,
                        py,
                        cell,
                    );
                assert(0 <= cell < upto && fb[cell] == lit && covers(sprite, px, py, cell));
            }
        } else {
            assert forall|cell: int| 0 <= cell < upto && fb[cell] == lit implies !#[trigger] covers(
                sprite,
                px,
                py,
                cell,
            ) by {
                if cell < upto - 1 {
                }
            }
        }
    }
}

/// Draws `height` rows of the sprite that starts at `memory[start]` onto the
/// framebuffer at (`px`, `py`), and reports whether a lit cell went dark.
pub fn draw_sprite(
    gfx: &mut [bool; 2048],
    memory: &[u8; 4096],
    start: usize,
    height: u8,
    px: u8,
    py: u8,
) -> (hit: bool)
    requires
        start + height <= 4096,
        height <= 32,
    ensures
        final(gfx)@ == blit(
            old(gfx)@,
            memory@.subrange(start as int, start + height),
            px as int,
            py as int,
        ),
        hit == collides(
            old(gfx)@,
            memory@.subrange(start as int, start + height),
            px as int,
            py as int,
        ),
{
    let ghost before = gfx@;
    let ghost sprite = memory@.subrange(start as int, start + height);
    let ghost gx = px as int;
    let ghost gy = py as int;
    let mut hit = false;
    let mut row: u8 = 0;
    while row < height
        invariant
            row <= height <= 32,
            start + height <= 4096,
            before.len() == 2048,
            sprite == memory@.subrange(start as int, start + height),
            gx == px,
            gy == py,
            forall|cell: int|
                0 <= cell < 2048 ==> gfx@[cell] == (before[cell] != drawn_before(
                    sprite,
                    gx,
                    gy,
                    cell,
                    row as int,
                    0,
                )),
            hit == exists|cell: int|
                0 <= cell < 2048 && before[cell] && #[trigger] drawn_before(
                    sprite,
                    gx,
                    gy,
                    cell,
                    row as int,
                    0,
                ),
        decreases height - row,
    {
        let byte = memory[start + row as usize];
        let cy: usize = (py as usize + row as usize) % SCREEN_HEIGHT;
        let mut col: u8 = 0;
        while col < 8
            invariant
                col <= 8,
                row < height <= 32,
                start + height <= 4096,
                before.len() == 2048,
                sprite == memory@.subrange(start as int, start + height),
                byte == sprite[row as int],
                gx == px,
                gy == py,
                cy == (py + row) % 32,
                forall|cell: int|
                    0 <= cell < 2048 ==> gfx@[cell] == (before[cell] != drawn_before(
                        sprite,
                        gx,
                        gy,
                        cell,
                        row as int,
                        col as int,
                    )),
                hit == exists|cell: int|
                    0 <= cell < 2048 && before[cell] && #[trigger] drawn_before(
                        sprite,
                        gx,
                        gy,
                        cell,
                        row as int,
                        col as int,
                    ),
            decreases 8 - col,
        {
            let ghost was_hit = hit;
            let ghost mid = gfx@;
            let cx: usize = (px as usize + col as usize) % SCREEN_WIDTH;
            let cell: usize = cy * SCREEN_WIDTH + cx;
            proof {
                lemma_target_cell(gx, gy, row as int, col as int);
                assert(cell == target_cell(gx, gy, row as int, col as int));
            }
            let set = (byte >> (7 - col)) & 1 == 1;
            if set {
                if gfx[cell] {
                    hit = true;
                }
                gfx[cell] = !gfx[cell];
            }
            proof {
                assert(set == sprite_pixel(sprite, row as int, col as int));
                assert forall|c: int| 0 <= c < 2048 implies (drawn_before(
                    sprite,
                    gx,
                    gy,
                    c,
                    row as int,
                    col + 1,
                ) == (drawn_before(sprite, gx, gy, c, row as int, col as int) || (c == cell
                    && set))) by {
                    if row_of(c, gy) == row && col_of(c, gx) == col {
                        lemma_one_cell_per_pixel(c, cell as int, gx, gy);
                    }
                }
                assert(!drawn_before(sprite, gx, gy, cell as int, row as int, col as int));
                if hit {
                    if was_hit {
                        let c = choose|c: int|
                            0 <= c < 2048 && before[c] && #[trigger] drawn_before(
                                sprite,
                                gx,
                                gy,
                                c,
                                row as int,
                                col as int,
                            );
                        assert(drawn_before(sprite, gx, gy, c, row as int, col + 1));
                    } else {
                        assert(mid[cell as int] == before[cell as int]);
                        assert(drawn_before(sprite, gx, gy, cell as int, row as int, col + 1));
                    }
                }
            }
            col = col + 1;
        }
        proof {
            assert forall|c: int| 0 <= c < 2048 implies drawn_before(
                sprite,
                gx,
                gy,
                c,
                row as int,
                8,
            ) == drawn_before(sprite, gx, gy, c, row + 1, 0) by {}
        }
        row = row + 1;
    }
    proof {
        assert forall|c: int| 0 <= c < 2048 implies drawn_before(
            sprite,
            gx,
            gy,
            c,
            height as int,
            0,
        ) == covers(sprite, gx, gy, c) by {}
        assert(gfx@ =~= blit(before, sprite, gx, gy));
        if hit {
            let c = choose|c: int|
                0 <= c < 2048 && before[c] && #[trigger] drawn_before(
                    sprite,
                    gx,
                    gy,
                    c,
                    height as int,
                    0,
                );
            assert(covers(sprite, gx, gy, c));
        } else if collides(before, sprite, gx, gy) {
            let c = choose|c: int|
                0 <= c < 2048 && before[c] && #[trigger] covers(sprite, gx, gy, c);
            assert(drawn_before(sprite, gx, gy, c, height as int, 0));
        }
    }
    hit
}

} // verus!
