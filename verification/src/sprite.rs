//! How a sprite comes onto the display bit by bit.
//!
//! The model says in one formula which pixels a sprite lights. The machine
//! draws it row by row and bit by bit; the lemmas here relate what is drawn
//! so far to the formula.

use vstd::prelude::*;
use crate::machine::{
    bit_set, column_offset, row_offset, target_pixel, MachineState, SCREEN_SIZE,
};

verus! {

/// Whether the part of a sprite that is drawn so far lights pixel `p`: the
/// rows above `row`, and of row `row` the bits before `col`.
pub(crate) open spec fn lights_so_far(
    s: MachineState,
    vx: int,
    vy: int,
    row: int,
    col: int,
    p: int,
) -> bool {
    let c: int = column_offset(vx, p);
    let r: int = row_offset(vy, p);
    c < 8 && (r < row || (r == row && c < col)) && bit_set(s.memory[s.i + r], c)
}

/// Whether the part of a sprite that is drawn so far lights a pixel that was
/// lit in `s`.
pub(crate) open spec fn collides_so_far(
    s: MachineState,
    vx: int,
    vy: int,
    row: int,
    col: int,
) -> bool {
    exists|p: int|
        0 <= p < SCREEN_SIZE && #[trigger] s.display[p] && lights_so_far(s, vx, vy, row, col, p)
}

/// Column `(vx + col) mod 64` is the only one that lies `col` columns to the
/// right of `vx`.
pub(crate) proof fn lemma_column_offset(vx: int, col: int, q: int)
    requires
        0 <= col < 64,
        0 <= q,
    ensures
        column_offset(vx, q) == col <==> q % 64 == (vx + col) % 64,
{
    let a: int = q % 64;
    let b: int = (vx + col) % 64;
    if a == b {
        assert((a - vx) % 64 == col);
    }
    if (a - vx) % 64 == col {
        assert(a == b);
    }
}

/// Row `(vy + row) mod 32` is the only one that lies `row` rows below `vy`.
pub(crate) proof fn lemma_row_offset(vy: int, row: int, q: int)
    requires
        0 <= row < 32,
        0 <= q < SCREEN_SIZE,
    ensures
        row_offset(vy, q) == row <==> q / 64 == (vy + row) % 32,
{
    let a: int = q / 64;
    let b: int = (vy + row) % 32;
    if a == b {
        assert((a - vy) % 32 == row);
    }
    if (a - vy) % 32 == row {
        assert(a == b);
    }
}

/// Drawing bit `col` of sprite row `row`, which lands on pixel `idx` and is
/// set if `lit`, adds this pixel if it is set, and no other, to those that
/// the sprite has lit.
pub(crate) proof fn lemma_bit_drawn(
    s: MachineState,
    vx: int,
    vy: int,
    row: int,
    col: int,
    idx: int,
    lit: bool,
)
    requires
        0 <= row < 32,
        0 <= col < 8,
        idx == target_pixel(vx, vy, row, col),
        lit == bit_set(s.memory[s.i + row], col),
    ensures
        0 <= idx < SCREEN_SIZE,
        !lights_so_far(s, vx, vy, row, col, idx),
        forall|p: int|
            0 <= p < SCREEN_SIZE ==> #[trigger] lights_so_far(s, vx, vy, row, col + 1, p) == (
            lights_so_far(s, vx, vy, row, col, p) || (p == idx && lit)),
        collides_so_far(s, vx, vy, row, col + 1) == (collides_so_far(s, vx, vy, row, col) || (lit
            && s.display[idx])),
{
    lemma_column_offset(vx, col, idx);
    lemma_row_offset(vy, row, idx);
    assert forall|p: int| 0 <= p < SCREEN_SIZE implies #[trigger] lights_so_far(
        s,
        vx,
        vy,
        row,
        col + 1,
        p,
    ) == (lights_so_far(s, vx, vy, row, col, p) || (p == idx && lit)) by {
        lemma_column_offset(vx, col, p);
        lemma_row_offset(vy, row, p);
    }
}

/// A row of which all eight bits are drawn is a row that lies above the
/// next one.
pub(crate) proof fn lemma_row_drawn(s: MachineState, vx: int, vy: int, row: int)
    ensures
        forall|p: int| #[trigger]
            lights_so_far(s, vx, vy, row, 8, p) == lights_so_far(s, vx, vy, row + 1, 0, p),
        collides_so_far(s, vx, vy, row, 8) == collides_so_far(s, vx, vy, row + 1, 0),
{
}

/// Once all rows are drawn, the sprite has lit what it lights.
pub(crate) proof fn lemma_sprite_drawn(s: MachineState, vx: int, vy: int, rows: int)
    ensures
        forall|p: int| #[trigger]
            lights_so_far(s, vx, vy, rows, 0, p) == s.sprite_lights(vx, vy, rows, p),
        collides_so_far(s, vx, vy, rows, 0) == s.sprite_collides(vx, vy, rows),
{
}

} // verus!
