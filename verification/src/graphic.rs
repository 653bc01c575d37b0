use vstd::prelude::*;

use vstd::arithmetic::div_mod::lemma_mod_bound;
use vstd::arithmetic::div_mod::lemma_mod_equivalence;
use vstd::arithmetic::div_mod::lemma_small_mod;
use vstd::arithmetic::div_mod::lemma_add_mod_noop;

verus! {

/// Width of the screen in pixels.
pub const SCREEN_WIDTH: usize = 64;

/// Height of the screen in pixels.
pub const SCREEN_HEIGHT: usize = 32;

/// Number of pixels on the screen.
pub const SCREEN_PIXELS: usize = 2048;

/// A pixel toggled by an XOR with a set sprite bit.
pub open spec fn toggled(b: u8) -> u8 {
    if b == 0 {
        1u8
    } else {
        0u8
    }
}

/// Bit `col` (counted from the left) of sprite row `row`.
pub open spec fn sprite_bit(sprite: Seq<u8>, row: int, col: int) -> u8 {
    (sprite[row] >> ((7 - col) as u8)) & 1
}

/// True when the sprite carries a set bit at (`row`, `col`).
pub open spec fn sprite_hits(sprite: Seq<u8>, row: int, col: int) -> bool {
    &&& 0 <= row < sprite.len()
    &&& 0 <= col < 8
    &&& sprite_bit(sprite, row, col) == 1
}

/// Index of the screen pixel targeted by sprite position (`row`, `col`) for a
/// draw at (`x`, `y`); both axes wrap independently (toroidal screen).
pub open spec fn pixel_index(x: int, y: int, row: int, col: int) -> int {
    ((y + row) % (SCREEN_HEIGHT as int)) * (SCREEN_WIDTH as int) + (x + col) % (
    SCREEN_WIDTH as int)
}

/// True when some set sprite bit targets screen pixel `p`.
pub open spec fn pixel_flipped(sprite: Seq<u8>, x: int, y: int, p: int) -> bool {
    exists|row: int, col: int|
        #[trigger] sprite_hits(sprite, row, col) && pixel_index(x, y, row, col) == p
}

/// The screen after XOR-blitting `sprite` at (`x`, `y`) onto `gfx`: every
/// pixel targeted by a set sprite bit is toggled, all others are unchanged.
pub open spec fn blit(gfx: Seq<u8>, x: int, y: int, sprite: Seq<u8>) -> Seq<u8> {
    Seq::new(
        gfx.len(),
        |p: int|
            if pixel_flipped(sprite, x, y, p) {
                toggled(gfx[p])
            } else {
                gfx[p]
            },
    )
}

/// True when blitting `sprite` at (`x`, `y`) onto `gfx` erases some pixel:
/// some set sprite bit targets a pixel that is already lit.
pub open spec fn blit_collision(gfx: Seq<u8>, x: int, y: int, sprite: Seq<u8>) -> bool {
    exists|row: int, col: int|
        #[trigger] sprite_hits(sprite, row, col) && gfx[pixel_index(x, y, row, col)] == 1
}

/// True when (`r`, `c`) comes strictly before (`row`, `col`) in the row-major
/// order in which sprite bits are blitted.
spec fn before(r: int, c: int, row: int, col: int) -> bool {
    r < row || (r == row && c < col)
}

/// `pixel_flipped` restricted to the sprite positions before (`row`, `col`).
spec fn flipped_before(sprite: Seq<u8>, x: int, y: int, p: int, row: int, col: int) -> bool {
    exists|r: int, c: int|
        #[trigger] sprite_hits(sprite, r, c) && before(r, c, row, col) && pixel_index(x, y, r, c)
            == p
}

/// `blit_collision` restricted to the sprite positions before (`row`, `col`).
spec fn collision_before(
    gfx: Seq<u8>,
    x: int,
    y: int,
    sprite: Seq<u8>,
    row: int,
    col: int,
) -> bool {
    exists|r: int, c: int|
        #[trigger] sprite_hits(sprite, r, c) && before(r, c, row, col) && gfx[pixel_index(
            x,
            y,
            r,
            c,
        )] == 1
}

/// Offsets below the modulus that wrap to the same value from the same base
/// are equal.
proof fn lemma_wrap_inj(base: int, a: int, b: int, m: int)
    requires
        0 < m,
        0 <= a < m,
        0 <= b < m,
        (base + a) % m == (base + b) % m,
    ensures
        a == b,
{
    lemma_mod_equivalence(base + a, base + b, m);
    if a > b {
        lemma_small_mod((a - b) as nat, m as nat);
    } else if b > a {
        lemma_mod_equivalence(base + b, base + a, m);
        lemma_small_mod((b - a) as nat, m as nat);
    }
}

/// Distinct sprite positions target distinct screen pixels: the row offsets
/// stay below the screen height and the column offsets below the width, so
/// neither wrap can make two of them coincide.
proof fn lemma_target_inj(x: int, y: int, r1: int, c1: int, r2: int, c2: int)
    requires
        0 <= x,
        0 <= y,
        0 <= r1 < 32,
        0 <= c1 < 8,
        0 <= r2 < 32,
        0 <= c2 < 8,
        !(r1 == r2 && c1 == c2),
    ensures
        pixel_index(x, y, r1, c1) != pixel_index(x, y, r2, c2),
{
    let py1 = (y + r1) % 32;
    let px1 = (x + c1) % 64;
    let py2 = (y + r2) % 32;
    let px2 = (x + c2) % 64;
    lemma_mod_bound(y + r1, 32);
    lemma_mod_bound(y + r2, 32);
    lemma_mod_bound(x + c1, 64);
    lemma_mod_bound(x + c2, 64);
    if pixel_index(x, y, r1, c1) == pixel_index(x, y, r2, c2) {
        assert(py1 == py2 && px1 == px2);
        lemma_wrap_inj(y, r1, r2, 32);
        lemma_wrap_inj(x, c1, c2, 64);
    }
}

/// Screen pixels targeted by sprite positions lie within the screen.
proof fn lemma_target_in_range(x: int, y: int, row: int, col: int)
    requires
        0 <= x,
        0 <= y,
    ensures
        0 <= pixel_index(x, y, row, col) < 2048,
{
    lemma_mod_bound(y + row, 32);
    lemma_mod_bound(x + col, 64);
}

/// The 64x32 monochrome framebuffer. Every pixel is stored as one byte that
/// is always 0 or 1; sprites are combined with the existing pixels by XOR,
/// never by overwriting.
pub struct Graphic {
    pub gfx: Vec<u8>,
}

impl Graphic {
    /// The buffer spans exactly 64x32 pixels, each 0 or 1.
    pub open spec fn wf(self) -> bool {
        &&& self.gfx@.len() == SCREEN_PIXELS
        &&& forall|p: int|
            0 <= p < SCREEN_PIXELS ==> (#[trigger] self.gfx@[p] == 0 || self.gfx@[p] == 1)
    }

    /// A blank screen.
    pub fn new() -> (r: Graphic)
        ensures
            r.wf(),
            forall|p: int| 0 <= p < SCREEN_PIXELS ==> r.gfx@[p] == 0,
    {
        let mut gfx: Vec<u8> = Vec::new();
        let mut p: usize = 0;
        while p < SCREEN_PIXELS
            invariant
                p <= SCREEN_PIXELS,
                gfx@.len() == p,
                forall|j: int| 0 <= j < p ==> gfx@[j] == 0,
            decreases SCREEN_PIXELS - p,
        {
            gfx.push(0);
            p = p + 1;
        }
        Graphic { gfx }
    }

    /// Switch every pixel off.
    pub fn clear(&mut self)
        requires
            old(self).wf(),
        ensures
            final(self).wf(),
            final(self).gfx@.len() == SCREEN_PIXELS,
            forall|p: int| 0 <= p < SCREEN_PIXELS ==> final(self).gfx@[p] == 0,
    {
        let mut p: usize = 0;
        while p < SCREEN_PIXELS
            invariant
                p <= SCREEN_PIXELS,
                self.gfx@.len() == SCREEN_PIXELS,
                forall|j: int| 0 <= j < p ==> self.gfx@[j] == 0,
                forall|j: int|
                    p <= j < SCREEN_PIXELS ==> (#[trigger] self.gfx@[j] == 0 || self.gfx@[j] == 1),
            decreases SCREEN_PIXELS - p,
        {
            self.gfx.set(p, 0);
            p = p + 1;
        }
    }

    /// An independently owned copy of the current pixel grid, for publication
    /// toward a display; the live buffer stays with this instance.
    pub fn snapshot(&self) -> (r: Vec<u8>)
        ensures
            r@ == self.gfx@,
    {
        let mut r: Vec<u8> = Vec::new();
        let mut p: usize = 0;
        while p < self.gfx.len()
            invariant
                p <= self.gfx@.len(),
                r@ == self.gfx@.subrange(0, p as int),
            decreases self.gfx@.len() - p,
        {
            r.push(self.gfx[p]);
            assert(r@ =~= self.gfx@.subrange(0, p + 1));
            p = p + 1;
        }
        proof {
            assert(r@ =~= self.gfx@);
        }
        r
    }

    /// XOR-blit `sprite` at (`x`, `y`): each of the sprite's rows covers 8
    /// columns, every set bit toggles its target pixel, and both coordinate
    /// axes wrap. Returns true exactly when some set bit found its target
    /// pixel already lit (a collision anywhere in the sprite).
    pub fn set_sprite(&mut self, x: usize, y: usize, sprite: &[u8]) -> (collision: bool)
        requires
            old(self).wf(),
            sprite@.len() <= 15,
        ensures
            final(self).wf(),
            final(self).gfx@ == blit(old(self).gfx@, x as int, y as int, sprite@),
            collision == blit_collision(old(self).gfx@, x as int, y as int, sprite@),
    {
        let mut collision = false;
        let mut row: usize = 0;
        while row < sprite.len()
            invariant
                old(self).wf(),
                self.gfx@.len() == SCREEN_PIXELS,
                sprite@.len() <= 15,
                row <= sprite@.len(),
                forall|p: int|
                    0 <= p < SCREEN_PIXELS ==> #[trigger] self.gfx@[p] == (if flipped_before(
                        sprite@,
                        x as int,
                        y as int,
                        p,
                        row as int,
                        0,
                    ) {
                        toggled(old(self).gfx@[p])
                    } else {
                        old(self).gfx@[p]
                    }),
                collision == collision_before(
                    old(self).gfx@,
                    x as int,
                    y as int,
                    sprite@,
                    row as int,
                    0,
                ),
            decreases sprite@.len() - row,
        {
            let fragment = sprite[row];
            let mut col: usize = 0;
            while col < 8
                invariant
                    old(self).wf(),
                    self.gfx@.len() == SCREEN_PIXELS,
                    sprite@.len() <= 15,
                    row < sprite@.len(),
                    col <= 8,
                    fragment == sprite@[row as int],
                    forall|p: int|
                        0 <= p < SCREEN_PIXELS ==> #[trigger] self.gfx@[p] == (if flipped_before(
                            sprite@,
                            x as int,
                            y as int,
                            p,
                            row as int,
                            col as int,
                        ) {
                            toggled(old(self).gfx@[p])
                        } else {
                            old(self).gfx@[p]
                        }),
                    collision == collision_before(
                        old(self).gfx@,
                        x as int,
                        y as int,
                        sprite@,
                        row as int,
                        col as int,
                    ),
                decreases 8 - col,
            {
                let bit = (fragment >> ((7 - col) as u8)) & 1;
                assert(bit == sprite_bit(sprite@, row as int, col as int));
                let px = (x % SCREEN_WIDTH + col) % SCREEN_WIDTH;
                let py = (y % SCREEN_HEIGHT + row) % SCREEN_HEIGHT;
                let index = py * SCREEN_WIDTH + px;
                proof {
                    lemma_add_mod_noop(x as int, col as int, 64);
                    lemma_small_mod(col as nat, 64);
                    lemma_add_mod_noop(y as int, row as int, 32);
                    lemma_small_mod(row as nat, 32);
                    lemma_mod_bound(x as int + col, 64);
                    lemma_mod_bound(y as int + row, 32);
                    assert(index == pixel_index(x as int, y as int, row as int, col as int));
                }
                if bit == 1 {
                    proof {
                        assert(sprite_hits(sprite@, row as int, col as int));
                        assert forall|r: int, c: int|
                            sprite_hits(sprite@, r, c) && before(
                                r,
                                c,
                                row as int,
                                col as int,
                            ) implies pixel_index(x as int, y as int, r, c) != index as int by {
                            lemma_target_inj(x as int, y as int, r, c, row as int, col as int);
                        }
                        assert(!flipped_before(
                            sprite@,
                            x as int,
                            y as int,
                            index as int,
                            row as int,
                            col as int,
                        ));
                        assert(self.gfx@[index as int] == old(self).gfx@[index as int]);
                    }
                    let screen_pixel = self.gfx[index];
                    if screen_pixel == 1 {
                        collision = true;
                    }
                    if screen_pixel == 0 {
                        self.gfx.set(index, 1);
                    } else {
                        self.gfx.set(index, 0);
                    }
                }
                proof {
                    let xi = x as int;
                    let yi = y as int;
                    let ri = row as int;
                    let ci = col as int;
                    assert forall|p: int| 0 <= p < SCREEN_PIXELS implies #[trigger] self.gfx@[p]
                        == (if flipped_before(sprite@, xi, yi, p, ri, ci + 1) {
                        toggled(old(self).gfx@[p])
                    } else {
                        old(self).gfx@[p]
                    }) by {
                        if p == index as int && sprite_bit(sprite@, ri, ci) == 1 {
                            assert(sprite_hits(sprite@, ri, ci) && before(ri, ci, ri, ci + 1));
                            assert(flipped_before(sprite@, xi, yi, p, ri, ci + 1));
                        } else {
                            assert(flipped_before(sprite@, xi, yi, p, ri, ci + 1)
                                <==> flipped_before(sprite@, xi, yi, p, ri, ci)) by {
                                assert forall|r: int, c: int|
                                    sprite_hits(sprite@, r, c) && before(r, c, ri, ci + 1)
                                        && pixel_index(xi, yi, r, c) == p implies before(
                                    r,
                                    c,
                                    ri,
                                    ci,
                                ) by {
                                    if r == ri && c == ci {
                                        assert(p == index as int);
                                        assert(false);
                                    }
                                }
                            }
                        }
                    }
                    assert(collision == collision_before(
                        old(self).gfx@,
                        xi,
                        yi,
                        sprite@,
                        ri,
                        ci + 1,
                    )) by {
                        if sprite_hits(sprite@, ri, ci) && old(self).gfx@[index as int] == 1 {
                            assert(before(ri, ci, ri, ci + 1));
                        }
                        if collision_before(old(self).gfx@, xi, yi, sprite@, ri, ci + 1)
                            && !collision_before(old(self).gfx@, xi, yi, sprite@, ri, ci) {
                            let (r, c) = choose|r: int, c: int|
                                #[trigger] sprite_hits(sprite@, r, c) && before(r, c, ri, ci + 1)
                                    && old(self).gfx@[pixel_index(xi, yi, r, c)] == 1;
                            assert(r == ri && c == ci);
                        }
                    }
                }
                col = col + 1;
            }
            proof {
                let xi = x as int;
                let yi = y as int;
                let ri = row as int;
                assert forall|p: int|
                    flipped_before(sprite@, xi, yi, p, ri, 8) == flipped_before(
                        sprite@,
                        xi,
                        yi,
                        p,
                        ri + 1,
                        0,
                    ) by {
                    assert forall|r: int, c: int|
                        sprite_hits(sprite@, r, c) implies (before(r, c, ri, 8) <==> before(
                        r,
                        c,
                        ri + 1,
                        0,
                    )) by {}
                }
            }
            row = row + 1;
        }
        proof {
            let xi = x as int;
            let yi = y as int;
            let n = sprite@.len() as int;
            assert forall|p: int|
                flipped_before(sprite@, xi, yi, p, n, 0) == pixel_flipped(sprite@, xi, yi, p) by {
                assert forall|r: int, c: int| sprite_hits(sprite@, r, c) implies before(
                    r,
                    c,
                    n,
                    0,
                ) by {}
            }
            assert(collision_before(old(self).gfx@, xi, yi, sprite@, n, 0) == blit_collision(
                old(self).gfx@,
                xi,
                yi,
                sprite@,
            )) by {
                assert forall|r: int, c: int| sprite_hits(sprite@, r, c) implies before(
                    r,
                    c,
                    n,
                    0,
                ) by {}
            }
            assert(self.gfx@ =~= blit(old(self).gfx@, xi, yi, sprite@));
        }
        collision
    }
}

/// Drawing the same sprite twice at the same coordinates restores the screen
/// (XOR is self-inverse), and the second draw reports a collision exactly
/// when the first draw switched some pixel on.
pub proof fn lemma_double_draw(gfx: Seq<u8>, x: int, y: int, sprite: Seq<u8>)
    requires
        gfx.len() == SCREEN_PIXELS,
        forall|p: int| 0 <= p < SCREEN_PIXELS ==> (#[trigger] gfx[p] == 0 || gfx[p] == 1),
        sprite.len() <= 15,
        0 <= x,
        0 <= y,
    ensures
        blit(blit(gfx, x, y, sprite), x, y, sprite) == gfx,
        blit_collision(blit(gfx, x, y, sprite), x, y, sprite) <==> (exists|row: int, col: int|
            #[trigger] sprite_hits(sprite, row, col) && gfx[pixel_index(x, y, row, col)] == 0),
{
    let once = blit(gfx, x, y, sprite);
    assert forall|p: int| 0 <= p < SCREEN_PIXELS implies 0 <= #[trigger] once[p] <= 1 by {}
    assert(blit(once, x, y, sprite) =~= gfx);
    if blit_collision(once, x, y, sprite) {
        let (row, col) = choose|row: int, col: int|
            #[trigger] sprite_hits(sprite, row, col) && once[pixel_index(x, y, row, col)] == 1;
        lemma_target_in_range(x, y, row, col);
        assert(pixel_flipped(sprite, x, y, pixel_index(x, y, row, col)));
        assert(gfx[pixel_index(x, y, row, col)] == 0);
    }
    if exists|row: int, col: int|
        #[trigger] sprite_hits(sprite, row, col) && gfx[pixel_index(x, y, row, col)] == 0 {
        let (row, col) = choose|row: int, col: int|
            #[trigger] sprite_hits(sprite, row, col) && gfx[pixel_index(x, y, row, col)] == 0;
        lemma_target_in_range(x, y, row, col);
        assert(pixel_flipped(sprite, x, y, pixel_index(x, y, row, col)));
        assert(once[pixel_index(x, y, row, col)] == 1);
        assert(blit_collision(once, x, y, sprite));
    }
}

} // verus!
