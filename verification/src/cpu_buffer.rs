//! The pixel buffer of the CPU renderer: a window-sized image, four bytes a
//! pixel in blue, green, red, alpha order, that is drawn on cell by cell.
use vstd::prelude::*;
use vstd::arithmetic::div_mod::{
    lemma_fundamental_div_mod,
    lemma_fundamental_div_mod_converse,
    lemma_mod_pos_bound,
    lemma_div_pos_is_pos,
    lemma_multiply_divide_lt,
};

verus! {

/// The column of the pixel that byte `k` of a `width` pixels wide image
/// belongs to.
pub open spec fn pixel_x(width: int, k: int) -> int {
    (k / 4) % width
}

/// The row of the pixel that byte `k` of a `width` pixels wide image belongs
/// to.
pub open spec fn pixel_y(width: int, k: int) -> int {
    (k / 4) / width
}

/// The byte of an RGBA colour stored at `channel` (0 to 3) of a pixel, in
/// blue, green, red, alpha order.
pub open spec fn bgra_byte(color: (u8, u8, u8, u8), channel: int) -> u8 {
    if channel == 0 {
        color.2
    } else if channel == 1 {
        color.1
    } else if channel == 2 {
        color.0
    } else {
        color.3
    }
}

/// The image `bytes`, `width` pixels wide, with every pixel `(x, y)` for
/// which `pred(x, y)` holds set to `color`.
pub open spec fn painted(
    bytes: Seq<u8>,
    width: int,
    pred: spec_fn(int, int) -> bool,
    color: (u8, u8, u8, u8),
) -> Seq<u8> {
    Seq::new(
        bytes.len(),
        |k: int|
            if pred(pixel_x(width, k), pixel_y(width, k)) {
                bgra_byte(color, k % 4)
            } else {
                bytes[k]
            },
    )
}

/// The RGBA colour of pixel `(x, y)` of the image `bytes`, `width` pixels
/// wide.
pub open spec fn pixel_at(bytes: Seq<u8>, width: int, x: int, y: int) -> (u8, u8, u8, u8) {
    let i = (y * width + x) * 4;
    (bytes[i + 2], bytes[i + 1], bytes[i], bytes[i + 3])
}

/// The bytes of pixel `(x, y)` are the four from `(y * width + x) * 4`, and
/// no others.
proof fn lemma_byte_pixel(width: int, x: int, y: int, k: int)
    requires
        width > 0,
        0 <= x < width,
        0 <= y,
        0 <= k,
    ensures
        ((y * width + x) * 4 <= k < (y * width + x) * 4 + 4) <==> (pixel_x(width, k) == x
            && pixel_y(width, k) == y),
        (y * width + x) * 4 <= k < (y * width + x) * 4 + 4 ==> k % 4 == k - (y * width + x) * 4,
{
    let p = k / 4;
    let q = y * width + x;
    lemma_fundamental_div_mod(k, 4);
    lemma_mod_pos_bound(k, 4);
    if q * 4 <= k < q * 4 + 4 {
        lemma_fundamental_div_mod_converse(k, 4, q, k - q * 4);
        lemma_fundamental_div_mod_converse(q, width, y, x);
    }
    if pixel_x(width, k) == x && pixel_y(width, k) == y {
        lemma_fundamental_div_mod(p, width);
        assert(width * y == y * width) by (nonlinear_arith);
    }
}

/// Every byte of a `width` by `height` image belongs to a pixel inside it.
proof fn lemma_byte_in_image(width: int, height: int, k: int)
    requires
        width > 0,
        0 <= k < width * height * 4,
    ensures
        0 <= pixel_x(width, k) < width,
        0 <= pixel_y(width, k) < height,
{
    let p = k / 4;
    assert(k < 4 * (width * height)) by (nonlinear_arith)
        requires
            k < width * height * 4,
    ;
    lemma_multiply_divide_lt(k, 4, width * height);
    lemma_div_pos_is_pos(k, 4);
    lemma_mod_pos_bound(p, width);
    lemma_multiply_divide_lt(p, width, height);
    lemma_div_pos_is_pos(p, width);
}

/// Painting with two conditions that agree on the pixels of the image gives
/// the same image.
proof fn lemma_painted_agree(
    bytes: Seq<u8>,
    width: int,
    height: int,
    p: spec_fn(int, int) -> bool,
    q: spec_fn(int, int) -> bool,
    color: (u8, u8, u8, u8),
)
    requires
        bytes.len() == width * height * 4,
        width >= 0,
        forall|x: int, y: int| 0 <= x < width && 0 <= y < height ==> #[trigger] p(x, y) == q(x, y),
    ensures
        painted(bytes, width, p, color) == painted(bytes, width, q, color),
{
    if width > 0 {
        assert forall|k: int| 0 <= k < bytes.len() implies painted(bytes, width, p, color)[k]
            == painted(bytes, width, q, color)[k] by {
            lemma_byte_in_image(width, height, k);
        }
    } else {
        assert(bytes.len() == 0) by (nonlinear_arith)
            requires
                bytes.len() == width * height * 4,
                width == 0,
        ;
    }
    assert(painted(bytes, width, p, color) =~= painted(bytes, width, q, color));
}

/// Painting twice with one colour paints where either condition holds.
proof fn lemma_painted_twice(
    bytes: Seq<u8>,
    width: int,
    p: spec_fn(int, int) -> bool,
    q: spec_fn(int, int) -> bool,
    color: (u8, u8, u8, u8),
)
    ensures
        painted(painted(bytes, width, p, color), width, q, color) == painted(
            bytes,
            width,
            |x: int, y: int| p(x, y) || q(x, y),
            color,
        ),
{
    assert(painted(painted(bytes, width, p, color), width, q, color) =~= painted(
        bytes,
        width,
        |x: int, y: int| p(x, y) || q(x, y),
        color,
    ));
}

/// Reading a pixel after painting gives the paint colour where the condition
/// holds, and what was there before elsewhere.
pub proof fn lemma_read_pixel_after_paint(
    bytes: Seq<u8>,
    width: int,
    height: int,
    pred: spec_fn(int, int) -> bool,
    color: (u8, u8, u8, u8),
    x: int,
    y: int,
)
    requires
        bytes.len() == width * height * 4,
        0 <= x < width,
        0 <= y < height,
    ensures
        pixel_at(painted(bytes, width, pred, color), width, x, y) == if pred(x, y) {
            color
        } else {
            pixel_at(bytes, width, x, y)
        },
{
    let i = (y * width + x) * 4;
    assert(i + 4 <= width * height * 4) by (nonlinear_arith)
        requires
            0 <= x < width,
            0 <= y < height,
            i == (y * width + x) * 4,
    ;
    assert(0 <= i) by (nonlinear_arith)
        requires
            0 <= x,
            0 <= y,
            0 < width,
            i == (y * width + x) * 4,
    ;
    lemma_byte_pixel(width, x, y, i);
    lemma_byte_pixel(width, x, y, i + 1);
    lemma_byte_pixel(width, x, y, i + 2);
    lemma_byte_pixel(width, x, y, i + 3);
}

/// The pixels of the window, with the size of a character cell.
pub struct CpuBuffer {
    /// The image, four bytes a pixel: blue, green, red, alpha.
    pub inner: Vec<u8>,
    /// The width of the window in pixels.
    pub window_width: u32,
    /// The height of the window in pixels.
    pub window_height: u32,
    /// The width of a character cell in pixels.
    pub cell_width: u32,
    /// The height of a character cell in pixels.
    pub cell_height: u32,
}

/// A rasterised glyph: its coverage bitmap, row by row, and its placement
/// relative to the pen position on the baseline.
pub struct Glyph {
    /// Offset of the bitmap's left edge from the pen position.
    pub xmin: i32,
    /// Offset of the bitmap's bottom edge above the baseline.
    pub ymin: i32,
    /// Width of the bitmap.
    pub width: usize,
    /// Height of the bitmap.
    pub height: usize,
    /// Coverage of each pixel of the bitmap, 0 to 255, `width` a row.
    pub bitmap: Vec<u8>,
}

/// The coverage from which a glyph pixel is drawn.
pub const GLYPH_ALPHA_THRESHOLD: u8 = 80;

/// The coverage of bitmap pixel `(gx, gy)` of a glyph.
pub open spec fn coverage(glyph: &Glyph, gx: int, gy: int) -> u8 {
    glyph.bitmap@[gy * glyph.width + gx]
}

/// Whether the glyph, with its bitmap's top-left pixel at `(x0, y0)`, draws
/// pixel `(a, b)`: the pixel lies on the bitmap and is covered at least to
/// the threshold.
pub open spec fn glyph_covers(glyph: &Glyph, x0: int, y0: int, a: int, b: int) -> bool {
    &&& 0 <= a - x0 < glyph.width
    &&& 0 <= b - y0 < glyph.height
    &&& coverage(glyph, a - x0, b - y0) >= GLYPH_ALPHA_THRESHOLD
}

impl CpuBuffer {
    /// The image holds four bytes for each pixel of the window.
    pub open spec fn wf(&self) -> bool {
        &&& self.window_width * self.window_height * 4 <= u32::MAX
        &&& self.inner@.len() == self.window_width * self.window_height * 4
    }

    /// Whether the cell at column `x`, row `y` can be painted: its pixel
    /// origin is addressable and, where it has pixels, it lies inside the
    /// window.
    pub open spec fn cell_fits(&self, x: u32, y: u32) -> bool {
        &&& x * self.cell_width <= u32::MAX
        &&& y * self.cell_height <= u32::MAX
        &&& self.cell_width > 0 && self.cell_height > 0 ==> {
            &&& x * self.cell_width + self.cell_width <= self.window_width
            &&& y * self.cell_height + self.cell_height <= self.window_height
        }
    }

    /// A transparent black window of `window_width` by `window_height`
    /// pixels, drawn in cells of `cell_width` by `cell_height` pixels.
    pub fn new(window_width: u32, window_height: u32, cell_width: u32, cell_height: u32) -> (b: Self)
        requires
            window_width * window_height * 4 <= u32::MAX,
        ensures
            b.wf(),
            b.window_width == window_width,
            b.window_height == window_height,
            b.cell_width == cell_width,
            b.cell_height == cell_height,
            b.inner@ == Seq::new((window_width * window_height * 4) as nat, |k: int| 0u8),
    {
        assert(window_width * window_height <= u32::MAX) by (nonlinear_arith)
            requires
                window_width * window_height * 4 <= u32::MAX,
        ;
        let inner = vec![0u8; (window_width * window_height * 4) as usize];
        let b = Self { inner, window_width, window_height, cell_width, cell_height };
        assert(b.inner@ =~= Seq::new((window_width * window_height * 4) as nat, |k: int| 0u8));
        b
    }

    /// The number of whole cell rows in the window.
    pub fn rows(&self) -> (n: u32)
        requires
            self.cell_height > 0,
        ensures
            n == self.window_height / self.cell_height,
    {
        self.window_height / self.cell_height
    }

    /// The number of whole cell columns in the window.
    pub fn cols(&self) -> (n: u32)
        requires
            self.cell_width > 0,
        ensures
            n == self.window_width / self.cell_width,
    {
        self.window_width / self.cell_width
    }

    /// Sets pixel `(x, y)` to an RGBA colour.
    fn set_pixel(&mut self, x: u32, y: u32, value: (u8, u8, u8, u8))
        requires
            old(self).wf(),
            x < old(self).window_width,
            y < old(self).window_height,
        ensures
            final(self).wf(),
            final(self).window_width == old(self).window_width,
            final(self).window_height == old(self).window_height,
            final(self).cell_width == old(self).cell_width,
            final(self).cell_height == old(self).cell_height,
            final(self).inner@ == painted(
                old(self).inner@,
                old(self).window_width as int,
                |a: int, b: int| a == x && b == y,
                value,
            ),
    {
        let ghost w = self.window_width as int;
        let ghost h = self.window_height as int;
        let ghost before = self.inner@;
        assert((y * w + x) * 4 + 4 <= w * h * 4) by (nonlinear_arith)
            requires
                0 <= x < w,
                0 <= y < h,
        ;
        let index = ((y * self.window_width + x) * 4) as usize;
        self.inner.set(index, value.2);
        self.inner.set(index + 1, value.1);
        self.inner.set(index + 2, value.0);
        self.inner.set(index + 3, value.3);
        assert forall|k: int| 0 <= k < before.len() implies #[trigger] self.inner@[k] == painted(
            before,
            w,
            |a: int, b: int| a == x && b == y,
            value,
        )[k] by {
            lemma_byte_pixel(w, x as int, y as int, k);
        }
        assert(self.inner@ =~= painted(before, w, |a: int, b: int| a == x && b == y, value));
    }

    /// Sets every pixel of the window to `color`.
    pub fn clear(&mut self, color: (u8, u8, u8, u8))
        requires
            old(self).wf(),
        ensures
            final(self).wf(),
            final(self).window_width == old(self).window_width,
            final(self).window_height == old(self).window_height,
            final(self).cell_width == old(self).cell_width,
            final(self).cell_height == old(self).cell_height,
            final(self).inner@ == painted(
                old(self).inner@,
                old(self).window_width as int,
                |a: int, b: int| true,
                color,
            ),
    {
        let ghost before = self.inner@;
        let ghost w = self.window_width as int;
        let ghost h = self.window_height as int;
        let ghost cw = self.cell_width;
        let ghost ch = self.cell_height;
        let width = self.window_width;
        let height = self.window_height;
        for i in 0..height
            invariant
                width == w,
                height == h,
                self.wf(),
                self.window_width == w,
                self.window_height == h,
                self.cell_width == cw,
                self.cell_height == ch,
                before.len() == w * h * 4,
                self.inner@ == painted(before, w, |a: int, b: int| b < i, color),
        {
            for j in 0..width
                invariant
                    width == w,
                    self.wf(),
                    self.window_width == w,
                    self.window_height == h,
                    self.cell_width == cw,
                    self.cell_height == ch,
                    before.len() == w * h * 4,
                    i < h,
                    self.inner@ == painted(
                        before,
                        w,
                        |a: int, b: int| b < i || (b == i && a < j),
                        color,
                    ),
            {
                let ghost prev = |a: int, b: int| b < i || (b == i && a < j);
                self.set_pixel(j, i, color);
                proof {
                    lemma_painted_twice(before, w, prev, |a: int, b: int| a == j && b == i, color);
                    lemma_painted_agree(
                        before,
                        w,
                        h,
                        |a: int, b: int| prev(a, b) || (a == j && b == i),
                        |a: int, b: int| b < i || (b == i && a < j + 1),
                        color,
                    );
                }
            }
            proof {
                lemma_painted_agree(
                    before,
                    w,
                    h,
                    |a: int, b: int| b < i || (b == i && a < w),
                    |a: int, b: int| b < i + 1,
                    color,
                );
            }
        }
        proof {
            lemma_painted_agree(before, w, h, |a: int, b: int| b < h, |a: int, b: int| true, color);
        }
    }

    /// Fills the cell at column `x`, row `y` with `color`.
    pub fn set_bg_at_cell(&mut self, x: u32, y: u32, color: (u8, u8, u8, u8))
        requires
            old(self).wf(),
            old(self).cell_fits(x, y),
        ensures
            final(self).wf(),
            final(self).window_width == old(self).window_width,
            final(self).window_height == old(self).window_height,
            final(self).cell_width == old(self).cell_width,
            final(self).cell_height == old(self).cell_height,
            final(self).inner@ == painted(
                old(self).inner@,
                old(self).window_width as int,
                |a: int, b: int|
                    x * old(self).cell_width <= a < x * old(self).cell_width + old(
                        self,
                    ).cell_width && y * old(self).cell_height <= b < y * old(self).cell_height
                        + old(self).cell_height,
                color,
            ),
    {
        let ghost before = self.inner@;
        let ghost w = self.window_width as int;
        let ghost h = self.window_height as int;
        let cw = self.cell_width;
        let ch = self.cell_height;
        let cell_px_x = x * cw;
        let cell_px_y = y * ch;
        let ghost cx = cell_px_x as int;
        let ghost cy = cell_px_y as int;
        for i in 0..ch
            invariant
                self.wf(),
                self.window_width == w,
                self.window_height == h,
                self.cell_width == cw,
                self.cell_height == ch,
                before.len() == w * h * 4,
                cell_px_x == x * cw,
                cell_px_y == y * ch,
                cx == cell_px_x,
                cy == cell_px_y,
                cw > 0 && ch > 0 ==> cx + cw <= w && cy + ch <= h,
                self.inner@ == painted(
                    before,
                    w,
                    |a: int, b: int| cx <= a < cx + cw && cy <= b < cy + i,
                    color,
                ),
        {
            for j in 0..cw
                invariant
                    self.wf(),
                    self.window_width == w,
                    self.window_height == h,
                    self.cell_width == cw,
                    self.cell_height == ch,
                    before.len() == w * h * 4,
                    cell_px_x == x * cw,
                    cell_px_y == y * ch,
                    cx == cell_px_x,
                    cy == cell_px_y,
                    cw > 0 && ch > 0 ==> cx + cw <= w && cy + ch <= h,
                    i < ch,
                    self.inner@ == painted(
                        before,
                        w,
                        |a: int, b: int|
                            (cx <= a < cx + cw && cy <= b < cy + i) || (b == cy + i && cx <= a
                                < cx + j),
                        color,
                    ),
            {
                let ghost prev = |a: int, b: int|
                    (cx <= a < cx + cw && cy <= b < cy + i) || (b == cy + i && cx <= a < cx + j);
                self.set_pixel(j + cell_px_x, i + cell_px_y, color);
                proof {
                    lemma_painted_twice(
                        before,
                        w,
                        prev,
                        |a: int, b: int| a == j + cx && b == i + cy,
                        color,
                    );
                    lemma_painted_agree(
                        before,
                        w,
                        h,
                        |a: int, b: int| prev(a, b) || (a == j + cx && b == i + cy),
                        |a: int, b: int|
                            (cx <= a < cx + cw && cy <= b < cy + i) || (b == cy + i && cx <= a
                                < cx + j + 1),
                        color,
                    );
                }
            }
            proof {
                lemma_painted_agree(
                    before,
                    w,
                    h,
                    |a: int, b: int|
                        (cx <= a < cx + cw && cy <= b < cy + i) || (b == cy + i && cx <= a < cx
                            + cw),
                    |a: int, b: int| cx <= a < cx + cw && cy <= b < cy + i + 1,
                    color,
                );
            }
        }
        proof {
            lemma_painted_agree(
                before,
                w,
                h,
                |a: int, b: int| cx <= a < cx + cw && cy <= b < cy + ch,
                |a: int, b: int| x * cw <= a < x * cw + cw && y * ch <= b < y * ch + ch,
                color,
            );
        }
    }

    /// The column, in pixels, of the left edge of a glyph drawn in the cell at
    /// column `x`.
    pub open spec fn glyph_left(&self, x: u32, glyph: &Glyph) -> int {
        x * self.cell_width + glyph.xmin
    }

    /// The row, in pixels, of the top edge of a glyph drawn in the cell at row
    /// `y` on a baseline `baseline` pixels below the cell's top.
    pub open spec fn glyph_top(&self, y: u32, glyph: &Glyph, baseline: i32) -> int {
        y * self.cell_height + baseline - glyph.height - glyph.ymin
    }

    /// Whether a glyph can be drawn in the cell at column `x`, row `y`: the
    /// cell's pixel origin is a 32-bit unsigned value, and the bitmap holds
    /// `width * height` coverage values. Where the glyph lies does not
    /// matter: what falls outside the window is left out.
    pub open spec fn glyph_fits(&self, x: u32, y: u32, glyph: &Glyph) -> bool {
        &&& x * self.cell_width <= u32::MAX
        &&& y * self.cell_height <= u32::MAX
        &&& glyph.width * glyph.height <= glyph.bitmap@.len()
    }

    /// Whether the cell at column `x`, row `y` can be painted.
    pub fn can_paint_cell(&self, x: u32, y: u32) -> (b: bool)
        ensures
            b == self.cell_fits(x, y),
    {
        let cw = self.cell_width as u64;
        let ch = self.cell_height as u64;
        assert(x * cw <= u64::MAX && y * ch <= u64::MAX) by (nonlinear_arith)
            requires
                x <= u32::MAX,
                y <= u32::MAX,
                cw <= u32::MAX,
                ch <= u32::MAX,
        ;
        let px = x as u64 * cw;
        let py = y as u64 * ch;
        assert(px == x * self.cell_width) by (nonlinear_arith)
            requires
                px == x as u64 * cw,
                cw == self.cell_width,
        ;
        assert(py == y * self.cell_height) by (nonlinear_arith)
            requires
                py == y as u64 * ch,
                ch == self.cell_height,
        ;
        if px > u32::MAX as u64 || py > u32::MAX as u64 {
            return false;
        }
        if cw > 0 && ch > 0 {
            px + cw <= self.window_width as u64 && py + ch <= self.window_height as u64
        } else {
            true
        }
    }

    /// Whether a glyph can be drawn in the cell at column `x`, row `y`.
    pub fn can_draw_glyph(&self, glyph: &Glyph, x: u32, y: u32) -> (b: bool)
        ensures
            b == self.glyph_fits(x, y, glyph),
    {
        assert(x * self.cell_width <= u64::MAX && y * self.cell_height <= u64::MAX)
            by (nonlinear_arith)
            requires
                x <= u32::MAX,
                y <= u32::MAX,
                self.cell_width <= u32::MAX,
                self.cell_height <= u32::MAX,
        ;
        let px = x as u64 * self.cell_width as u64;
        let py = y as u64 * self.cell_height as u64;
        assert(px == x * self.cell_width) by (nonlinear_arith)
            requires
                px == x as u64 * self.cell_width as u64,
        ;
        assert(py == y * self.cell_height) by (nonlinear_arith)
            requires
                py == y as u64 * self.cell_height as u64,
        ;
        if px > u32::MAX as u64 || py > u32::MAX as u64 {
            return false;
        }
        let len = glyph.bitmap.len();
        match glyph.width.checked_mul(glyph.height) {
            Some(area) => area <= len,
            None => {
                assert(glyph.width * glyph.height > len);
                false
            },
        }
    }

    /// Draws a glyph in `color` in the cell at column `x`, row `y`, on a
    /// baseline `baseline` pixels below the cell's top: each bitmap pixel
    /// covered at least to the threshold sets the window pixel under it;
    /// pixels outside the window, wherever the cell lies, are left out. The
    /// cell's background is not touched.
    pub fn set_glyph_at_cell(
        &mut self,
        glyph: &Glyph,
        x: u32,
        y: u32,
        baseline: i32,
        color: (u8, u8, u8, u8),
    )
        requires
            old(self).wf(),
            old(self).glyph_fits(x, y, glyph),
        ensures
            final(self).wf(),
            final(self).window_width == old(self).window_width,
            final(self).window_height == old(self).window_height,
            final(self).cell_width == old(self).cell_width,
            final(self).cell_height == old(self).cell_height,
            final(self).inner@ == painted(
                old(self).inner@,
                old(self).window_width as int,
                |a: int, b: int|
                    glyph_covers(
                        glyph,
                        old(self).glyph_left(x, glyph),
                        old(self).glyph_top(y, glyph, baseline),
                        a,
                        b,
                    ),
                color,
            ),
    {
        let ghost before = self.inner@;
        let ghost w = self.window_width as int;
        let ghost h = self.window_height as int;
        let ghost cw = self.cell_width;
        let ghost ch = self.cell_height;
        let cell_px_x = x * self.cell_width;
        let cell_px_y = y * self.cell_height;
        let glyph_x: i128 = cell_px_x as i128 + glyph.xmin as i128;
        let glyph_y: i128 = cell_px_y as i128 + baseline as i128 - glyph.height as i128
            - glyph.ymin as i128;
        let ghost x0 = glyph_x as int;
        let ghost y0 = glyph_y as int;
        assert(x0 == self.glyph_left(x, glyph));
        assert(y0 == self.glyph_top(y, glyph, baseline));
        let width = self.window_width;
        let height = self.window_height;
        let metrics_width = glyph.width;
        let metrics_height = glyph.height;
        for gy in 0..metrics_height
            invariant
                self.wf(),
                self.window_width == w,
                self.window_height == h,
                self.cell_width == cw,
                self.cell_height == ch,
                width == w,
                height == h,
                before.len() == w * h * 4,
                metrics_width == glyph.width,
                metrics_height == glyph.height,
                glyph.width * glyph.height <= glyph.bitmap@.len(),
                glyph_x == x0,
                glyph_y == y0,
                -0x1_0000_0000 <= x0 <= 0x1_0000_0000_0000,
                -0x1_0000_0000_0000_0000_0000 <= y0 <= 0x1_0000_0000_0000,
                self.inner@ == painted(
                    before,
                    w,
                    |a: int, b: int| glyph_covers(glyph, x0, y0, a, b) && b - y0 < gy,
                    color,
                ),
        {
            for gx in 0..metrics_width
                invariant
                    self.wf(),
                    self.window_width == w,
                    self.window_height == h,
                    self.cell_width == cw,
                    self.cell_height == ch,
                    width == w,
                    height == h,
                    before.len() == w * h * 4,
                    metrics_width == glyph.width,
                    metrics_height == glyph.height,
                    glyph.width * glyph.height <= glyph.bitmap@.len(),
                    glyph_x == x0,
                    glyph_y == y0,
                    -0x1_0000_0000 <= x0 <= 0x1_0000_0000_0000,
                    -0x1_0000_0000_0000_0000_0000 <= y0 <= 0x1_0000_0000_0000,
                    gy < glyph.height,
                    self.inner@ == painted(
                        before,
                        w,
                        |a: int, b: int|
                            glyph_covers(glyph, x0, y0, a, b) && (b - y0 < gy || (b - y0 == gy && a
                                - x0 < gx)),
                        color,
                    ),
            {
                let ghost prev = |a: int, b: int|
                    glyph_covers(glyph, x0, y0, a, b) && (b - y0 < gy || (b - y0 == gy && a - x0
                        < gx));
                let ghost next = |a: int, b: int|
                    glyph_covers(glyph, x0, y0, a, b) && (b - y0 < gy || (b - y0 == gy && a - x0
                        < gx + 1));
                assert(gy * metrics_width + gx < metrics_width * metrics_height) by (nonlinear_arith)
                    requires
                        gx < metrics_width,
                        gy < metrics_height,
                ;
                let bitmap_len = glyph.bitmap.len();
                assert(metrics_width * metrics_height <= bitmap_len);
                assert(gy * metrics_width <= gy * metrics_width + gx);
                let alpha = glyph.bitmap[gy * metrics_width + gx];
                assert(alpha == coverage(glyph, gx as int, gy as int));
                if alpha >= GLYPH_ALPHA_THRESHOLD {
                    let px: i128 = glyph_x + gx as i128;
                    let py: i128 = glyph_y + gy as i128;
                    if px >= 0 && py >= 0 && px < width as i128 && py < height as i128 {
                        self.set_pixel(px as u32, py as u32, color);
                        proof {
                            lemma_painted_twice(
                                before,
                                w,
                                prev,
                                |a: int, b: int| a == px && b == py,
                                color,
                            );
                            lemma_painted_agree(
                                before,
                                w,
                                h,
                                |a: int, b: int| prev(a, b) || (a == px && b == py),
                                next,
                                color,
                            );
                        }
                    } else {
                        proof {
                            lemma_painted_agree(before, w, h, prev, next, color);
                        }
                    }
                } else {
                    proof {
                        lemma_painted_agree(before, w, h, prev, next, color);
                    }
                }
            }
            proof {
                lemma_painted_agree(
                    before,
                    w,
                    h,
                    |a: int, b: int|
                        glyph_covers(glyph, x0, y0, a, b) && (b - y0 < gy || (b - y0 == gy && a
                            - x0 < glyph.width)),
                    |a: int, b: int| glyph_covers(glyph, x0, y0, a, b) && b - y0 < gy + 1,
                    color,
                );
            }
        }
        proof {
            lemma_painted_agree(
                before,
                w,
                h,
                |a: int, b: int| glyph_covers(glyph, x0, y0, a, b) && b - y0 < glyph.height,
                |a: int, b: int| glyph_covers(glyph, x0, y0, a, b),
                color,
            );
        }
    }
}

/// A pixel is stored as four bytes from `(y * width + x) * 4`, in the order
/// blue, green, red, alpha: after painting a pixel of the image, those four
/// bytes are the paint colour's blue, green, red and alpha.
pub proof fn lemma_painted_bytes_are_bgra(
    bytes: Seq<u8>,
    width: int,
    height: int,
    pred: spec_fn(int, int) -> bool,
    color: (u8, u8, u8, u8),
    x: int,
    y: int,
)
    requires
        bytes.len() == width * height * 4,
        0 <= x < width,
        0 <= y < height,
        pred(x, y),
    ensures
        ({
            let out = painted(bytes, width, pred, color);
            let i = (y * width + x) * 4;
            &&& out[i] == color.2
            &&& out[i + 1] == color.1
            &&& out[i + 2] == color.0
            &&& out[i + 3] == color.3
        }),
{
    lemma_read_pixel_after_paint(bytes, width, height, pred, color, x, y);
}

/// A glyph draws the pixel under bitmap pixel `(gx, gy)` exactly when that
/// bitmap pixel's coverage is at least 80: 80 is drawn, 79 is not.
pub proof fn lemma_glyph_threshold(glyph: &Glyph, x0: int, y0: int, gx: int, gy: int)
    requires
        0 <= gx < glyph.width,
        0 <= gy < glyph.height,
    ensures
        glyph_covers(glyph, x0, y0, x0 + gx, y0 + gy) <==> glyph.bitmap@[gy * glyph.width + gx]
            >= 80,
        !glyph_covers(glyph, x0, y0, x0 - 1, y0 + gy),
        !glyph_covers(glyph, x0, y0, x0 + gx, y0 - 1),
{
}

/// A glyph drawn in the cell at column `x`, row `y` has its bitmap's left
/// edge `xmin` pixels right of the cell's left edge, and its bitmap's bottom
/// edge `ymin` pixels above the baseline, which lies `baseline` pixels below
/// the cell's top.
pub proof fn lemma_glyph_placement(b: CpuBuffer, x: u32, y: u32, glyph: &Glyph, baseline: i32)
    ensures
        b.glyph_left(x, glyph) == x * b.cell_width + glyph.xmin,
        b.glyph_top(y, glyph, baseline) + glyph.height == y * b.cell_height + baseline
            - glyph.ymin,
{
}

} // verus!
