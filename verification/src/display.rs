//! The 64x32 one-bit framebuffer: XOR sprite drawing with per-pixel
//! wraparound and collision detection. Turning the buffer into pixels on a
//! screen is the rendering driver's job; it only ever reads a snapshot.

use vstd::prelude::*;
use vstd::arithmetic::div_mod::{
    lemma_fundamental_div_mod, lemma_fundamental_div_mod_converse_mod,
    lemma_mod_division_less_than_divisor,
};

verus! {

/// Flat framebuffer index of the cell a sprite bit lands on: row `r`, column
/// `c` of a sprite drawn at `(x, y)`, each coordinate wrapping independently.
pub open spec fn pixel_index(x: int, y: int, r: int, c: int) -> int {
    ((y + r) % 32) * 64 + ((x + c) % 64)
}

/// Whether column `c` (0 = leftmost) of a sprite row byte is set.
pub open spec fn sprite_bit(b: u8, c: int) -> bool {
    b & (0x80u8 >> (c as u8)) != 0
}

/// Whether some sprite bit lands on framebuffer cell `i`.
pub open spec fn touches(x: int, y: int, rows: int, i: int) -> bool {
    exists|r: int, c: int| 0 <= r < rows && 0 <= c < 8 && pixel_index(x, y, r, c) == i
}

/// The full effect of one sprite draw: `fb1` is `fb0` with every set sprite
/// bit XORed into its wrapped target cell, every other cell untouched, and
/// `collision` exactly when some set bit found its target cell already on.
pub open spec fn draw_rel(
    fb0: Seq<bool>,
    fb1: Seq<bool>,
    x: int,
    y: int,
    sprite: Seq<u8>,
    collision: bool,
) -> bool {
    &&& fb1.len() == fb0.len()
    &&& forall|r: int, c: int|
        0 <= r < sprite.len() && 0 <= c < 8 ==> fb1[#[trigger] pixel_index(x, y, r, c)] == (fb0[
            pixel_index(x, y, r, c)
        ] != sprite_bit(sprite[r], c))
    &&& forall|i: int| 0 <= i < fb0.len() && !touches(x, y, sprite.len() as int, i) ==> fb1[i]
        == fb0[i]
    &&& collision == exists|r: int, c: int|
        0 <= r < sprite.len() && 0 <= c < 8 && sprite_bit(sprite[r], c) && fb0[#[trigger]
        pixel_index(x, y, r, c)]
}

/// Whether drawing `sprite` at `(x, y)` over `fb0` collides: some set sprite
/// bit lands on a cell that is already lit.
pub open spec fn draw_collides(fb0: Seq<bool>, x: int, y: int, sprite: Seq<u8>) -> bool {
    exists|r: int, c: int|
        0 <= r < sprite.len() && 0 <= c < 8 && sprite_bit(sprite[r], c) && fb0[#[trigger]
        pixel_index(x, y, r, c)]
}

/// Sprite bits are drawn in row-major order; `(r, c)` comes strictly before
/// position `(row, col)`.
spec fn before(row: int, col: int, r: int, c: int) -> bool {
    r < row || (r == row && c < col)
}

/// `(v + r) % m` written without the modulus, for `0 <= r < m`.
proof fn lemma_mod_shift(v: int, r: int, m: int)
    requires
        v >= 0,
        m > 0,
        0 <= r < m,
    ensures
        (v + r) % m == if (v % m) + r < m {
            (v % m) + r
        } else {
            (v % m) + r - m
        },
{
    let q = v / m;
    lemma_fundamental_div_mod(v, m);
    lemma_mod_division_less_than_divisor(v, m);
    if (v % m) + r < m {
        lemma_fundamental_div_mod_converse_mod(v + r, m, q, (v % m) + r);
    } else {
        assert((q + 1) * m == q * m + m) by (nonlinear_arith);
        lemma_fundamental_div_mod_converse_mod(v + r, m, q + 1, (v % m) + r - m);
    }
}

/// Distinct sprite positions land on distinct framebuffer cells, because a
/// sprite is at most 32 rows tall and 64 columns wide.
proof fn lemma_pixel_index_injective(x: int, y: int, r1: int, c1: int, r2: int, c2: int)
    requires
        x >= 0,
        y >= 0,
        0 <= r1 < 32,
        0 <= r2 < 32,
        0 <= c1 < 64,
        0 <= c2 < 64,
        pixel_index(x, y, r1, c1) == pixel_index(x, y, r2, c2),
    ensures
        r1 == r2,
        c1 == c2,
{
    lemma_mod_division_less_than_divisor(y + r1, 32);
    lemma_mod_division_less_than_divisor(y + r2, 32);
    lemma_mod_division_less_than_divisor(x + c1, 64);
    lemma_mod_division_less_than_divisor(x + c2, 64);
    assert((y + r1) % 32 == (y + r2) % 32 && (x + c1) % 64 == (x + c2) % 64);
    lemma_mod_shift(y, r1, 32);
    lemma_mod_shift(y, r2, 32);
    lemma_mod_shift(x, c1, 64);
    lemma_mod_shift(x, c2, 64);
}

/// Drawing one sprite twice at the same coordinates restores the framebuffer
/// to where it started, and the second draw reports a collision exactly when
/// some set sprite bit had landed on a dark cell the first time (so, starting
/// from a dark region, any sprite with a set bit collides on its second draw).
pub proof fn lemma_draw_twice_restores(
    fb0: Seq<bool>,
    fb1: Seq<bool>,
    fb2: Seq<bool>,
    x: int,
    y: int,
    sprite: Seq<u8>,
    c1: bool,
    c2: bool,
)
    requires
        draw_rel(fb0, fb1, x, y, sprite, c1),
        draw_rel(fb1, fb2, x, y, sprite, c2),
    ensures
        fb2 == fb0,
        c2 == exists|r: int, c: int|
            0 <= r < sprite.len() && 0 <= c < 8 && sprite_bit(sprite[r], c) && !fb0[#[trigger]
            pixel_index(x, y, r, c)],
{
    let n = sprite.len() as int;
    assert forall|i: int| 0 <= i < fb0.len() implies fb2[i] == fb0[i] by {
        if touches(x, y, n, i) {
            let (r, c) = choose|r: int, c: int|
                0 <= r < n && 0 <= c < 8 && pixel_index(x, y, r, c) == i;
            assert(fb1[pixel_index(x, y, r, c)] == (fb0[pixel_index(x, y, r, c)] != sprite_bit(
                sprite[r], c,
            )));
        }
    }
    assert(fb2 =~= fb0);
}

pub struct Display {
    pub memory: Vec<bool>,
}

impl Display {
    /// The framebuffer always holds exactly 64 * 32 cells, cell `(row, col)`
    /// at flat index `row * 64 + col`.
    pub open spec fn wf(self) -> bool {
        self.memory@.len() == 2048
    }

    /// A fresh, fully dark framebuffer.
    pub fn new() -> (r: Display)
        ensures
            r.wf(),
            forall|i: int| 0 <= i < 2048 ==> !r.memory@[i],
    {
        let mut memory: Vec<bool> = Vec::new();
        let mut k: usize = 0;
        while k < 2048
            invariant
                k <= 2048,
                memory@.len() == k,
                forall|j: int| 0 <= j < k ==> !memory@[j],
            decreases 2048 - k,
        {
            memory.push(false);
            k = k + 1;
        }
        Display { memory }
    }

    /// Switches every cell off.
    pub fn clear(&mut self)
        requires
            old(self).wf(),
        ensures
            final(self).wf(),
            forall|i: int| 0 <= i < 2048 ==> !final(self).memory@[i],
    {
        let mut k: usize = 0;
        while k < 2048
            invariant
                k <= 2048,
                self.memory@.len() == 2048,
                forall|j: int| 0 <= j < k ==> !self.memory@[j],
            decreases 2048 - k,
        {
            self.memory.set(k, false);
            k = k + 1;
        }
    }

    /// Reads the cell at `(row, col)`; the renderer's snapshot access.
    pub fn pixel(&self, row: usize, col: usize) -> (r: bool)
        requires
            self.wf(),
            row < 32,
            col < 64,
        ensures
            r == self.memory@[row as int * 64 + col as int],
    {
        self.memory[row * 64 + col]
    }

    /// XOR-draws `sprite` with its top-left corner at `(x, y)`, each row 8
    /// pixels wide, most significant bit leftmost; both coordinates wrap per
    /// pixel. Returns whether any set bit switched an already-lit cell off.
    pub fn draw(&mut self, x: usize, y: usize, sprite: &Vec<u8>) -> (collision: bool)
        requires
            old(self).wf(),
            sprite@.len() <= 32,
            x <= 0xFFFF,
            y <= 0xFFFF,
        ensures
            final(self).wf(),
            draw_rel(old(self).memory@, final(self).memory@, x as int, y as int, sprite@, collision),
    {
        let ghost fb0 = self.memory@;
        let ghost xi = x as int;
        let ghost yi = y as int;
        let ghost n = sprite@.len() as int;
        let mut collision = false;
        let rows = sprite.len();
        let mut row: usize = 0;
        while row < rows
            invariant
                old(self).wf(),
                self.memory@.len() == 2048,
                fb0 == old(self).memory@,
                fb0.len() == 2048,
                xi == x as int,
                yi == y as int,
                x <= 0xFFFF,
                y <= 0xFFFF,
                n == sprite@.len() as int,
                n <= 32,
                rows == n,
                row <= rows,
                forall|r: int, c: int|
                    0 <= r < n && 0 <= c < 8 && before(row as int, 0, r, c) ==> self.memory@[
                        #[trigger] pixel_index(xi, yi, r, c)
                    ] == (fb0[pixel_index(xi, yi, r, c)] != sprite_bit(sprite@[r], c)),
                forall|i: int|
                    0 <= i < 2048 && !(exists|r: int, c: int|
                        0 <= r < n && 0 <= c < 8 && before(row as int, 0, r, c) && pixel_index(
                            xi, yi, r, c,
                        ) == i) ==> self.memory@[i] == fb0[i],
                collision == exists|r: int, c: int|
                    0 <= r < n && 0 <= c < 8 && before(row as int, 0, r, c) && sprite_bit(
                        sprite@[r], c,
                    ) && fb0[#[trigger] pixel_index(xi, yi, r, c)],
            decreases rows - row,
        {
            let row_byte = sprite[row];
            let mut col: usize = 0;
            while col < 8
                invariant
                    self.memory@.len() == 2048,
                    fb0.len() == 2048,
                    xi == x as int,
                    yi == y as int,
                    x <= 0xFFFF,
                    y <= 0xFFFF,
                    n == sprite@.len() as int,
                    n <= 32,
                    rows == n,
                    row < rows,
                    col <= 8,
                    row_byte == sprite@[row as int],
                    forall|r: int, c: int|
                        0 <= r < n && 0 <= c < 8 && before(row as int, col as int, r, c)
                            ==> self.memory@[#[trigger] pixel_index(xi, yi, r, c)] == (fb0[
                            pixel_index(xi, yi, r, c)
                        ] != sprite_bit(sprite@[r], c)),
                    forall|i: int|
                        0 <= i < 2048 && !(exists|r: int, c: int|
                            0 <= r < n && 0 <= c < 8 && before(row as int, col as int, r, c)
                                && pixel_index(xi, yi, r, c) == i) ==> self.memory@[i] == fb0[i],
                    collision == exists|r: int, c: int|
                        0 <= r < n && 0 <= c < 8 && before(row as int, col as int, r, c)
                            && sprite_bit(sprite@[r], c) && fb0[#[trigger] pixel_index(
                            xi, yi, r, c,
                        )],
                decreases 8 - col,
            {
                let mask: u8 = 0x80u8 >> (col as u8);
                let y_norm = (y + row) % 32;
                let x_norm = (x + col) % 64;
                let idx = y_norm * 64 + x_norm;
                proof {
                    assert(idx == pixel_index(xi, yi, row as int, col as int));
                    assert(idx < 2048);
                    assert forall|r: int, c: int|
                        0 <= r < n && 0 <= c < 8 && pixel_index(xi, yi, r, c) == idx implies r
                        == row as int && c == col as int by {
                        lemma_pixel_index_injective(
                            xi, yi, row as int, col as int, r, c,
                        );
                    }
                }
                if row_byte & mask != 0 {
                    let was = self.memory[idx];
                    proof {
                        assert(was == fb0[idx as int]);
                        assert(sprite_bit(sprite@[row as int], col as int));
                    }
                    if was {
                        collision = true;
                    }
                    self.memory.set(idx, !was);
                } else {
                    proof {
                        assert(!sprite_bit(sprite@[row as int], col as int));
                        assert(self.memory@[idx as int] == fb0[idx as int]);
                    }
                }
                proof {
                    assert forall|r: int, c: int|
                        0 <= r < n && 0 <= c < 8 && before(row as int, col as int + 1, r, c)
                            implies self.memory@[#[trigger] pixel_index(xi, yi, r, c)] == (fb0[
                        pixel_index(xi, yi, r, c)
                    ] != sprite_bit(sprite@[r], c)) by {
                        if r == row as int && c == col as int {
                        } else if pixel_index(xi, yi, r, c) == idx {
                            lemma_pixel_index_injective(xi, yi, row as int, col as int, r, c);
                        }
                    }
                }
                col = col + 1;
            }
            row = row + 1;
        }
        collision
    }
}

} // verus!
