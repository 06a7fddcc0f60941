use vstd::prelude::*;

verus! {

/// Width of the framebuffer in pixels.
pub const WIDTH: usize = 64;

/// Height of the framebuffer in pixels.
pub const HEIGHT: usize = 32;

/// Number of pixels in the framebuffer, stored row by row.
pub const PIXEL_COUNT: usize = 2048;

/// The index of the pixel at column `col` and row `row` of a sprite drawn at
/// `(x, y)`. Coordinates wrap around both edges of the screen.
pub open spec fn position(x: int, y: int, row: int, col: int) -> int {
    (x + col) % 64 + ((y + row) % 32) * 64
}

/// The sprite column that covers pixel `p` when the sprite is drawn at column `x`.
pub open spec fn sprite_col(p: int, x: int) -> int {
    (p % 64 - x % 64 + 64) % 64
}

/// The sprite row that covers pixel `p` when the sprite is drawn at row `y`.
pub open spec fn sprite_row(p: int, y: int) -> int {
    (p / 64 - y % 32 + 32) % 32
}

/// Whether bit `col` of a sprite row is set, the leftmost pixel being the
/// most significant bit.
pub open spec fn sprite_bit(b: u8, col: int) -> bool {
    b & (0x80u8 >> (col as u8)) != 0
}

/// Whether a set bit of the sprite `rows` drawn at `(x, y)` lands on pixel `p`.
pub open spec fn covered(rows: Seq<u8>, x: int, y: int, p: int) -> bool {
    sprite_col(p, x) < 8 && sprite_row(p, y) < rows.len() && sprite_bit(
        rows[sprite_row(p, y)],
        sprite_col(p, x),
    )
}

/// The framebuffer after the sprite `rows` is XOR-drawn at `(x, y)`.
pub open spec fn draw_spec(pixels: Seq<bool>, rows: Seq<u8>, x: int, y: int) -> Seq<bool> {
    Seq::new(pixels.len(), |p: int| pixels[p] != covered(rows, x, y, p))
}

/// Whether drawing the sprite `rows` at `(x, y)` turns off a lit pixel.
pub open spec fn collides(pixels: Seq<bool>, rows: Seq<u8>, x: int, y: int) -> bool {
    exists|p: int| 0 <= p < pixels.len() && covered(rows, x, y, p) && #[trigger] pixels[p]
}

/// Whether the pixel that covers `p` comes before row `r`, column `c` of the sprite.
pub open spec fn drawn_before(p: int, x: int, y: int, r: int, c: int) -> bool {
    sprite_row(p, y) < r || (sprite_row(p, y) == r && sprite_col(p, x) < c)
}

/// The position of a sprite pixel is on the screen, and maps back to the
/// sprite row and column it came from.
pub proof fn lemma_position(x: int, y: int, row: int, col: int)
    requires
        0 <= x,
        0 <= y,
        0 <= row < 32,
        0 <= col < 64,
    ensures
        0 <= position(x, y, row, col) < 2048,
        sprite_row(position(x, y, row, col), y) == row,
        sprite_col(position(x, y, row, col), x) == col,
{
    let p = position(x, y, row, col);
    let a = (x + col) % 64;
    let b = (y + row) % 32;
    assert(p % 64 == a && p / 64 == b) by (nonlinear_arith)
        requires
            p == a + b * 64,
            0 <= a < 64,
            0 <= b < 32,
    ;
}

/// Every pixel is the position of the sprite row and column that cover it.
pub proof fn lemma_position_onto(x: int, y: int, p: int)
    requires
        0 <= x,
        0 <= y,
        0 <= p < 2048,
    ensures
        position(x, y, sprite_row(p, y), sprite_col(p, x)) == p,
{
    let px = p % 64;
    let py = p / 64;
    assert(p == px + py * 64 && 0 <= py < 32) by (nonlinear_arith)
        requires
            px == p % 64,
            py == p / 64,
            0 <= p < 2048,
    ;
}

/// Drawing the same sprite twice at the same place restores the
/// framebuffer. On a blank framebuffer the first draw collides with nothing,
/// and the second collides exactly when the sprite lights some pixel.
pub proof fn lemma_draw_twice(pixels: Seq<bool>, rows: Seq<u8>, x: int, y: int)
    ensures
        draw_spec(draw_spec(pixels, rows, x, y), rows, x, y) == pixels,
        (forall|p: int| 0 <= p < pixels.len() ==> !pixels[p]) ==> !collides(pixels, rows, x, y) && (
        collides(draw_spec(pixels, rows, x, y), rows, x, y) <==> exists|p: int|
            0 <= p < pixels.len() && covered(rows, x, y, p)),
{
    assert(draw_spec(draw_spec(pixels, rows, x, y), rows, x, y) =~= pixels);
    if forall|p: int| 0 <= p < pixels.len() ==> !pixels[p] {
        let drawn = draw_spec(pixels, rows, x, y);
        if exists|p: int| 0 <= p < pixels.len() && covered(rows, x, y, p) {
            let p = choose|p: int| 0 <= p < pixels.len() && covered(rows, x, y, p);
            assert(drawn[p]);
        }
    }
}

/// A monochrome 64 by 32 framebuffer with a pending-redraw flag.
pub struct Display {
    pixels: Vec<bool>,
    redraw: bool,
}

impl View for Display {
    type V = Seq<bool>;

    closed spec fn view(&self) -> Seq<bool> {
        self.pixels@
    }
}

impl Display {
    pub open spec fn wf(&self) -> bool {
        self@.len() == PIXEL_COUNT
    }

    /// Whether the framebuffer changed since the host last took a frame.
    pub closed spec fn redraw_pending(&self) -> bool {
        self.redraw
    }

    /// A blank framebuffer with no redraw pending.
    pub fn new() -> (r: Display)
        ensures
            r.wf(),
            r@ == Seq::new(PIXEL_COUNT as nat, |p: int| false),
            !r.redraw_pending(),
    {
        let r = Display { pixels: vec![false; PIXEL_COUNT], redraw: false };
        assert(r@ =~= Seq::new(PIXEL_COUNT as nat, |p: int| false));
        r
    }

    /// Turns every pixel off and asks for a redraw.
    pub fn clear(&mut self)
        ensures
            final(self)@ == Seq::new(PIXEL_COUNT as nat, |p: int| false),
            final(self).wf(),
            final(self).redraw_pending(),
    {
        self.pixels = vec![false; PIXEL_COUNT];
        self.redraw = true;
        assert(self@ =~= Seq::new(PIXEL_COUNT as nat, |p: int| false));
    }

    /// Whether the pixel at column `x`, row `y` is lit.
    pub fn pixel_at(&self, x: usize, y: usize) -> (r: bool)
        requires
            self.wf(),
            x < WIDTH,
            y < HEIGHT,
        ensures
            r == self@[y * 64 + x],
    {
        self.pixels[y * WIDTH + x]
    }

    /// Whether a redraw is pending, without clearing it.
    pub fn needs_redraw(&self) -> (r: bool)
        ensures
            r == self.redraw_pending(),
    {
        self.redraw
    }

    /// Returns whether a redraw is pending, and clears the flag.
    pub fn take_redraw_flag(&mut self) -> (r: bool)
        ensures
            r == old(self).redraw_pending(),
            !final(self).redraw_pending(),
            final(self)@ == old(self)@,
    {
        let r = self.redraw;
        self.redraw = false;
        r
    }

    /// XOR-draws the sprite `rows`, eight pixels wide and one row per byte, with
    /// its top left corner at `(x, y)`. Pixels past the right or bottom edge
    /// wrap around to the left or top. Asks for a redraw, and returns whether a
    /// lit pixel was turned off.
    pub fn draw_sprite(&mut self, x: u8, y: u8, rows: &Vec<u8>) -> (collided: bool)
        requires
            old(self).wf(),
            rows@.len() <= HEIGHT,
        ensures
            final(self).wf(),
            final(self)@ == draw_spec(old(self)@, rows@, x as int, y as int),
            collided == collides(old(self)@, rows@, x as int, y as int),
            final(self).redraw_pending(),
    {
        let ghost before = self@;
        let ghost xi = x as int;
        let ghost yi = y as int;
        let mut collided = false;
        let mut r: usize = 0;
        while r < rows.len()
            invariant
                self.wf(),
                xi == x as int,
                yi == y as int,
                before.len() == PIXEL_COUNT,
                r <= rows@.len() <= HEIGHT,
                forall|p: int|
                    0 <= p < PIXEL_COUNT ==> #[trigger] self@[p] == (before[p] != (covered(
                        rows@,
                        xi,
                        yi,
                        p,
                    ) && drawn_before(p, xi, yi, r as int, 0))),
                collided == exists|p: int|
                    0 <= p < PIXEL_COUNT && covered(rows@, xi, yi, p) && drawn_before(
                        p,
                        xi,
                        yi,
                        r as int,
                        0,
                    ) && #[trigger] before[p],
            decreases rows@.len() - r,
        {
            let bits = rows[r];
            let mut c: usize = 0;
            while c < 8
                invariant
                    self.wf(),
                    xi == x as int,
                    yi == y as int,
                    before.len() == PIXEL_COUNT,
                    r < rows@.len() <= HEIGHT,
                    c <= 8,
                    bits == rows@[r as int],
                    forall|p: int|
                        0 <= p < PIXEL_COUNT ==> #[trigger] self@[p] == (before[p] != (covered(
                            rows@,
                            xi,
                            yi,
                            p,
                        ) && drawn_before(p, xi, yi, r as int, c as int))),
                    collided == exists|p: int|
                        0 <= p < PIXEL_COUNT && covered(rows@, xi, yi, p) && drawn_before(
                            p,
                            xi,
                            yi,
                            r as int,
                            c as int,
                        ) && #[trigger] before[p],
                decreases 8 - c,
            {
                let q: usize = (x as usize + c) % WIDTH + ((y as usize + r) % HEIGHT) * WIDTH;
                proof {
                    lemma_position(xi, yi, r as int, c as int);
                    assert forall|p: int| 0 <= p < PIXEL_COUNT && p != q implies (drawn_before(
                        p,
                        xi,
                        yi,
                        r as int,
                        c as int + 1,
                    ) == drawn_before(p, xi, yi, r as int, c as int)) by {
                        lemma_position_onto(xi, yi, p);
                    }
                }
                let lit = self.pixels[q];
                if bits & (0x80u8 >> (c as u8)) != 0 {
                    if lit {
                        collided = true;
                    }
                    self.pixels[q] = !lit;
                }
                c = c + 1;
            }
            proof {
                assert forall|p: int| 0 <= p < PIXEL_COUNT implies (covered(rows@, xi, yi, p)
                    && #[trigger] drawn_before(p, xi, yi, r as int, 8)) == (covered(
                    rows@,
                    xi,
                    yi,
                    p,
                ) && drawn_before(p, xi, yi, r as int + 1, 0)) by {}
            }
            r = r + 1;
        }
        self.redraw = true;
        proof {
            assert forall|p: int| 0 <= p < PIXEL_COUNT implies #[trigger] drawn_before(
                p,
                xi,
                yi,
                rows@.len() as int,
                0,
            ) || !covered(rows@, xi, yi, p) by {}
        }
        assert(self@ =~= draw_spec(before, rows@, xi, yi));
        collided
    }
}

} // verus!
