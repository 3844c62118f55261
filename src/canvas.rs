//! A small RGB raster for drawing the legend: rectangles, outlines and text
//! in the 8×8 basic bitmap font, drawn at twice its size.
use vstd::prelude::*;
use vstd::arithmetic::div_mod::{lemma_fundamental_div_mod, lemma_fundamental_div_mod_converse, lemma_mod_bound};
use font8x8::UnicodeFonts;

verus! {

/// Screen pixels per font pixel.
pub const FONT_SCALE: u64 = 2;
/// Width and height of one drawn character in screen pixels.
pub const CHAR_SIZE: u64 = 16;

/// The 8×8 bitmap of a character of the basic font: one byte per row, bit
/// `k` lit for column `k`.
pub uninterp spec fn basic_glyph(c: char) -> Seq<u8>;

/// Relies on font8x8's `BASIC_FONTS.get`: the basic font holds exactly the
/// characters U+0000 to U+007F, each with its 8×8 bitmap.
#[verifier::external_body]
fn basic_glyph_of(c: char) -> (r: Option<[u8; 8]>)
    ensures
        r is Some <==> (c as u32) < 128,
        r matches Some(g) ==> g@ == basic_glyph(c),
{
    font8x8::BASIC_FONTS.get(c)
}

/// Whether column `col` of a glyph row is lit.
pub open spec fn lit(row: u8, col: u64) -> bool {
    row & (1u8 << (col as u8)) != 0
}

/// `(px, py)` lies in the rectangle at `(x, y)` of size `w` × `h`.
pub open spec fn in_rect(px: int, py: int, x: int, y: int, w: int, h: int) -> bool {
    x <= px < x + w && y <= py < y + h
}

/// `(px, py)` lies on the one-pixel border of the rectangle.
pub open spec fn on_border(px: int, py: int, x: int, y: int, w: int, h: int) -> bool {
    ||| in_rect(px, py, x, y, w, 1)
    ||| in_rect(px, py, x, y + h - 1, w, 1)
    ||| in_rect(px, py, x, y, 1, h)
    ||| in_rect(px, py, x + w - 1, y, 1, h)
}

/// The glyph of `c` drawn at `(x, y)` lights pixel `(px, py)`.
pub open spec fn glyph_covers(c: char, x: int, y: int, px: int, py: int) -> bool {
    &&& (c as u32) < 128
    &&& in_rect(px, py, x, y, CHAR_SIZE as int, CHAR_SIZE as int)
    &&& lit(basic_glyph(c)[(py - y) / 2], ((px - x) / 2) as u64)
}

/// The first `n` characters of `s`, drawn left to right from `(x, y)`, light
/// pixel `(px, py)`.
pub open spec fn text_covers(s: Seq<char>, n: nat, x: int, y: int, px: int, py: int) -> bool
    decreases n,
{
    if n == 0 {
        false
    } else {
        text_covers(s, (n - 1) as nat, x, y, px, py) || glyph_covers(
            s[n - 1],
            x + (n - 1) * CHAR_SIZE,
            y,
            px,
            py,
        )
    }
}

/// What a painting pass covers: the whole rectangle, or the lit pixels of a
/// glyph drawn in it.
pub open spec fn paints(mask: Option<[u8; 8]>, x: int, y: int, w: int, h: int, px: int, py: int) -> bool {
    in_rect(px, py, x, y, w, h) && match mask {
        None => true,
        Some(g) => lit(g@[(py - y) / 2], ((px - x) / 2) as u64),
    }
}

/// An RGB raster stored row by row: pixel `(x, y)` at index `y * width + x`.
pub struct Canvas {
    pub width: u32,
    pub height: u32,
    pub pixels: Vec<[u8; 3]>,
}

impl Canvas {
    /// One pixel per cell of the raster.
    pub open spec fn wf(&self) -> bool {
        self.pixels@.len() == self.width * self.height
    }

    /// Column of the pixel at index `i`.
    pub open spec fn col(&self, i: int) -> int {
        i % self.width as int
    }

    /// Row of the pixel at index `i`.
    pub open spec fn row(&self, i: int) -> int {
        i / self.width as int
    }

    /// A `width` × `height` canvas filled with `background`.
    pub fn new(width: u32, height: u32, background: [u8; 3]) -> (c: Canvas)
        requires
            width * height <= usize::MAX,
        ensures
            c.wf(),
            c.width == width,
            c.height == height,
            forall|i: int| 0 <= i < c.pixels@.len() ==> #[trigger] c.pixels@[i] == background,
    {
        let n = width as usize * height as usize;
        let mut pixels: Vec<[u8; 3]> = Vec::new();
        let mut i: usize = 0;
        while i < n
            invariant
                i <= n,
                pixels@.len() == i,
                forall|j: int| 0 <= j < i ==> #[trigger] pixels@[j] == background,
            decreases n - i,
        {
            pixels.push(background);
            i = i + 1;
        }
        Canvas { width, height, pixels }
    }

    /// Paints `color` on the pixels of the rectangle that `mask` admits,
    /// clipped to the canvas.
    fn paint(&mut self, x: u64, y: u64, w: u64, h: u64, color: [u8; 3], mask: Option<[u8; 8]>)
        requires
            old(self).wf(),
            x < 0x1_0000_0000_0000,
            y < 0x1_0000_0000_0000,
            w < 0x1_0000_0000_0000,
            h < 0x1_0000_0000_0000,
            mask is Some ==> w <= CHAR_SIZE && h <= CHAR_SIZE,
        ensures
            final(self).wf(),
            final(self).width == old(self).width,
            final(self).height == old(self).height,
            forall|i: int|
                0 <= i < final(self).pixels@.len() ==> #[trigger] final(self).pixels@[i] == if paints(
                    mask,
                    x as int,
                    y as int,
                    w as int,
                    h as int,
                    old(self).col(i),
                    old(self).row(i),
                ) {
                    color
                } else {
                    old(self).pixels@[i]
                },
    {
        let ghost before = self.pixels@;
        let width = self.width as u64;
        let height = self.height as u64;
        let len = self.pixels.len();
        if width == 0 {
            return;
        }
        let ghost wi = width as int;
        let y_end = if y + h < height { y + h } else { height };
        let x_end = if x + w < width { x + w } else { width };
        let mut py = y;
        while py < y_end
            invariant
                self.wf(),
                self.width == width,
                self.height == height,
                len == self.pixels@.len(),
                width > 0,
                wi == width,
                before.len() == len,
                y_end == (if y + h < height { y + h } else { height as int }),
                x_end == (if x + w < width { x + w } else { width as int }),
                y <= py,
                py <= y_end || py == y,
                x < 0x1_0000_0000_0000,
                y < 0x1_0000_0000_0000,
                w < 0x1_0000_0000_0000,
                h < 0x1_0000_0000_0000,
                mask is Some ==> w <= CHAR_SIZE && h <= CHAR_SIZE,
                forall|i: int|
                    0 <= i < len ==> #[trigger] self.pixels@[i] == if paints(
                        mask,
                        x as int,
                        y as int,
                        w as int,
                        py - y,
                        i % wi,
                        i / wi,
                    ) {
                        color
                    } else {
                        before[i]
                    },
            decreases y_end - py,
        {
            let mut px = x;
            while px < x_end
                invariant
                    self.wf(),
                    self.width == width,
                    self.height == height,
                    len == self.pixels@.len(),
                    width > 0,
                    wi == width,
                    before.len() == len,
                    x_end == (if x + w < width { x + w } else { width as int }),
                    x <= px,
                    px <= x_end || px == x,
                    y <= py < y_end,
                    y_end <= height,
                    y_end <= y + h,
                    mask is Some ==> w <= CHAR_SIZE && h <= CHAR_SIZE,
                    forall|i: int|
                        0 <= i < len ==> #[trigger] self.pixels@[i] == if paints(
                            mask,
                            x as int,
                            y as int,
                            w as int,
                            py - y,
                            i % wi,
                            i / wi,
                        ) || (i / wi == py && x <= i % wi < px && paints(
                            mask,
                            x as int,
                            y as int,
                            w as int,
                            h as int,
                            i % wi,
                            i / wi,
                        )) {
                            color
                        } else {
                            before[i]
                        },
                decreases x_end - px,
            {
                proof {
                    assert(py * width + px < height * width) by (nonlinear_arith)
                        requires
                            py < height,
                            px < width,
                    ;
                    lemma_fundamental_div_mod_converse((py * width + px) as int, wi, py as int, px as int);
                }
                let idx = (py * width + px) as usize;
                let on = match mask {
                    None => true,
                    Some(g) => g[((py - y) / 2) as usize] & (1u8 << (((px - x) / 2) as u8)) != 0,
                };
                let ghost prev = self.pixels@;
                if on {
                    self.pixels.set(idx, color);
                }
                proof {
                    assert forall|i: int| 0 <= i < len implies #[trigger] self.pixels@[i] == if paints(
                        mask,
                        x as int,
                        y as int,
                        w as int,
                        py - y,
                        i % wi,
                        i / wi,
                    ) || (i / wi == py && x <= i % wi < px + 1 && paints(
                        mask,
                        x as int,
                        y as int,
                        w as int,
                        h as int,
                        i % wi,
                        i / wi,
                    )) {
                        color
                    } else {
                        before[i]
                    } by {
                        lemma_fundamental_div_mod(i, wi);
                        if i != idx {
                            assert(self.pixels@[i] == prev[i]);
                            if i / wi == py && i % wi == px {
                                assert(i == wi * py + px);
                                assert(wi * py == py * wi) by (nonlinear_arith);
                            }
                        }
                    }
                }
                px = px + 1;
            }
            proof {
                assert forall|i: int| 0 <= i < len implies #[trigger] self.pixels@[i] == if paints(
                    mask,
                    x as int,
                    y as int,
                    w as int,
                    py + 1 - y,
                    i % wi,
                    i / wi,
                ) {
                    color
                } else {
                    before[i]
                } by {
                    lemma_mod_bound(i, wi);
                }
            }
            py = py + 1;
        }
        proof {
            assert forall|i: int| 0 <= i < len implies #[trigger] self.pixels@[i] == if paints(
                mask,
                x as int,
                y as int,
                w as int,
                h as int,
                i % wi,
                i / wi,
            ) {
                color
            } else {
                before[i]
            } by {
                lemma_fundamental_div_mod(i, wi);
                lemma_mod_bound(i, wi);
                assert(i / wi < height) by (nonlinear_arith)
                    requires
                        i == wi * (i / wi) + i % wi,
                        0 <= i % wi,
                        i < wi * height,
                        wi > 0,
                ;
            }
        }
    }

    /// Fills a rectangle with `color`, clipped to the canvas.
    pub fn fill_rect(&mut self, x: u32, y: u32, w: u32, h: u32, color: [u8; 3])
        requires
            old(self).wf(),
        ensures
            final(self).wf(),
            final(self).width == old(self).width,
            final(self).height == old(self).height,
            forall|i: int|
                0 <= i < final(self).pixels@.len() ==> #[trigger] final(self).pixels@[i] == if in_rect(
                    old(self).col(i),
                    old(self).row(i),
                    x as int,
                    y as int,
                    w as int,
                    h as int,
                ) {
                    color
                } else {
                    old(self).pixels@[i]
                },
    {
        self.paint(x as u64, y as u64, w as u64, h as u64, color, None);
    }

    /// Draws the one-pixel border of a rectangle, clipped to the canvas.
    pub fn outline_rect(&mut self, x: u32, y: u32, w: u32, h: u32, color: [u8; 3])
        requires
            old(self).wf(),
            w >= 1,
            h >= 1,
        ensures
            final(self).wf(),
            final(self).width == old(self).width,
            final(self).height == old(self).height,
            forall|i: int|
                0 <= i < final(self).pixels@.len() ==> #[trigger] final(self).pixels@[i] == if on_border(
                    old(self).col(i),
                    old(self).row(i),
                    x as int,
                    y as int,
                    w as int,
                    h as int,
                ) {
                    color
                } else {
                    old(self).pixels@[i]
                },
    {
        let (x, y, w, h) = (x as u64, y as u64, w as u64, h as u64);
        self.paint(x, y, w, 1, color, None);
        self.paint(x, y + h - 1, w, 1, color, None);
        self.paint(x, y, 1, h, color, None);
        self.paint(x + w - 1, y, 1, h, color, None);
    }

    fn draw_glyph(&mut self, c: char, x: u64, y: u64, color: [u8; 3])
        requires
            old(self).wf(),
            x < 0x1_0000_0000_0000,
            y < 0x1_0000_0000_0000,
        ensures
            final(self).wf(),
            final(self).width == old(self).width,
            final(self).height == old(self).height,
            forall|i: int|
                0 <= i < final(self).pixels@.len() ==> #[trigger] final(self).pixels@[i] == if glyph_covers(
                    c,
                    x as int,
                    y as int,
                    old(self).col(i),
                    old(self).row(i),
                ) {
                    color
                } else {
                    old(self).pixels@[i]
                },
    {
        match basic_glyph_of(c) {
            Some(g) => self.paint(x, y, CHAR_SIZE, CHAR_SIZE, color, Some(g)),
            None => {},
        }
    }

    /// Draws a character of the basic font with its top-left corner at
    /// `(x, y)`; characters outside U+0000..U+007F draw nothing.
    pub fn draw_char(&mut self, c: char, x: u32, y: u32, color: [u8; 3])
        requires
            old(self).wf(),
        ensures
            final(self).wf(),
            final(self).width == old(self).width,
            final(self).height == old(self).height,
            forall|i: int|
                0 <= i < final(self).pixels@.len() ==> #[trigger] final(self).pixels@[i] == if glyph_covers(
                    c,
                    x as int,
                    y as int,
                    old(self).col(i),
                    old(self).row(i),
                ) {
                    color
                } else {
                    old(self).pixels@[i]
                },
    {
        self.draw_glyph(c, x as u64, y as u64, color);
    }

    /// Draws a string left to right from `(x, y)`, one character cell each.
    pub fn draw_str(&mut self, s: &Vec<char>, x: u32, y: u32, color: [u8; 3])
        requires
            old(self).wf(),
            s@.len() < 0x1_0000_0000,
        ensures
            final(self).wf(),
            final(self).width == old(self).width,
            final(self).height == old(self).height,
            forall|i: int|
                0 <= i < final(self).pixels@.len() ==> #[trigger] final(self).pixels@[i] == if text_covers(
                    s@,
                    s@.len(),
                    x as int,
                    y as int,
                    old(self).col(i),
                    old(self).row(i),
                ) {
                    color
                } else {
                    old(self).pixels@[i]
                },
    {
        let ghost before = self.pixels@;
        let ghost wi = self.width as int;
        let mut k: usize = 0;
        while k < s.len()
            invariant
                self.wf(),
                self.width == old(self).width,
                self.height == old(self).height,
                wi == self.width,
                before == old(self).pixels@,
                k <= s@.len() < 0x1_0000_0000,
                forall|i: int|
                    0 <= i < self.pixels@.len() ==> #[trigger] self.pixels@[i] == if text_covers(
                        s@,
                        k as nat,
                        x as int,
                        y as int,
                        i % wi,
                        i / wi,
                    ) {
                        color
                    } else {
                        before[i]
                    },
            decreases s@.len() - k,
        {
            self.draw_glyph(s[k], x as u64 + k as u64 * CHAR_SIZE, y as u64, color);
            k = k + 1;
        }
    }
}

} // verus!
