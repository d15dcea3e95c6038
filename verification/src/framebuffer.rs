//! The framebuffer: a width x height grid of colors, row major, plus
//! the background color that `clear` fills with. `clear` and `point`
//! are the only mutation paths; `point` is bounds-checked and silently
//! drops writes outside the buffer. `pixel_bytes` is the presentation
//! copy: the display-ready, row-major byte image of the buffer.
use vstd::prelude::*;
use vstd::pervasive::VecAdditionalExecFns;
use vstd::arithmetic::mul::lemma_mul_inequality;
use vstd::arithmetic::mul::lemma_mul_upper_bound;
use vstd::arithmetic::mul::lemma_mul_is_distributive_sub;
use crate::fragment::Color;

verus! {

/// Largest accepted framebuffer side, a memory limit: indices then fit
/// comfortably in a machine word on any target.
pub const DIM_LIMIT: u32 = 16384;

/// The framebuffer: pixel grid, fixed dimensions, background color.
pub struct Framebuffer {
    pub width: usize,
    pub height: usize,
    pub buffer: Vec<Color>,
    pub background: Color,
}

impl Framebuffer {
    /// The buffer holds exactly width x height pixels, within the size
    /// limit fixed at construction.
    pub open spec fn wf(&self) -> bool {
        &&& self.buffer@.len() == self.width * self.height
        &&& self.width <= DIM_LIMIT
        &&& self.height <= DIM_LIMIT
    }

    /// The pixel grid, row major.
    pub open spec fn pixels(&self) -> Seq<Color> {
        self.buffer@
    }

    /// Whether (x, y) addresses a pixel of this buffer.
    pub open spec fn in_bounds(&self, x: int, y: int) -> bool {
        0 <= x < self.width && 0 <= y < self.height
    }

    /// The row-major index of pixel (x, y).
    pub open spec fn pixel_index(&self, x: int, y: int) -> int {
        y * self.width + x
    }

    /// The color at pixel (x, y).
    pub open spec fn pixel_at(&self, x: int, y: int) -> Color {
        self.pixels()[self.pixel_index(x, y)]
    }

    /// The dimensions and background are unchanged by a mutation.
    pub open spec fn same_shape(&self, other: &Framebuffer) -> bool {
        self.width == other.width && self.height == other.height
            && self.background == other.background
    }

    /// Allocates a width x height buffer, every pixel and the initial
    /// background black; the dimensions are fixed for the lifetime of
    /// the object.
    pub fn new(width: u32, height: u32) -> (fb: Framebuffer)
        requires
            width <= DIM_LIMIT,
            height <= DIM_LIMIT,
        ensures
            fb.wf(),
            fb.width == width,
            fb.height == height,
            fb.background == (Color { r: 0, g: 0, b: 0 }),
            forall|i: int| 0 <= i < fb.pixels().len()
                ==> #[trigger] fb.pixels()[i] == fb.background,
    {
        let w = width as usize;
        let h = height as usize;
        proof {
            lemma_mul_upper_bound(w as int, 16384, h as int, 16384);
        }
        let total = w * h;
        let black = Color { r: 0, g: 0, b: 0 };
        let mut buffer: Vec<Color> = Vec::new();
        let mut i: usize = 0;
        while i < total
            invariant
                i <= total,
                buffer@.len() == i,
                forall|j: int| 0 <= j < i ==> #[trigger] buffer@[j] == black,
            decreases total - i,
        {
            buffer.push(black);
            i = i + 1;
        }
        Framebuffer { width: w, height: h, buffer, background: black }
    }

    /// Sets the fill color used by `clear`; the pixels are untouched.
    pub fn set_background_color(&mut self, color: Color)
        requires
            old(self).wf(),
        ensures
            final(self).wf(),
            final(self).width == old(self).width && final(self).height == old(self).height,
            final(self).background == color,
            final(self).pixels() == old(self).pixels(),
    {
        self.background = color;
    }

    /// Resets every pixel to the background color; run at the start of
    /// every frame, since without a depth test only the clear removes
    /// the previous frame's image.
    pub fn clear(&mut self)
        requires
            old(self).wf(),
        ensures
            final(self).wf(),
            final(self).same_shape(old(self)),
            final(self).pixels().len() == old(self).pixels().len(),
            forall|i: int| 0 <= i < final(self).pixels().len()
                ==> #[trigger] final(self).pixels()[i] == final(self).background,
    {
        let bg = self.background;
        let total = self.buffer.len();
        let mut i: usize = 0;
        while i < total
            invariant
                i <= total,
                self.buffer@.len() == total,
                self.width == old(self).width && self.height == old(self).height,
                self.background == old(self).background,
                forall|j: int| 0 <= j < i ==> #[trigger] self.buffer@[j] == bg,
                bg == self.background,
            decreases total - i,
        {
            self.buffer.set(i, bg);
            i = i + 1;
        }
    }

    /// Writes `color` at pixel (x, y) if it is in bounds; a write
    /// outside the buffer is silently dropped, not an error.
    pub fn point(&mut self, x: i64, y: i64, color: Color)
        requires
            old(self).wf(),
        ensures
            final(self).wf(),
            final(self).same_shape(old(self)),
            old(self).in_bounds(x as int, y as int) ==> final(self).pixels()
                == old(self).pixels().update(old(self).pixel_index(x as int, y as int), color),
            !old(self).in_bounds(x as int, y as int) ==> final(self).pixels()
                == old(self).pixels(),
    {
        if x >= 0 && y >= 0 && x < self.width as i64 && y < self.height as i64 {
            proof {
                lemma_mul_upper_bound(y as int, 16383, self.width as int, 16384);
                lemma_mul_inequality(y as int, self.height as int - 1, self.width as int);
                lemma_mul_is_distributive_sub(self.width as int, self.height as int, 1);
            }
            let idx = (y as usize) * self.width + (x as usize);
            self.buffer.set(idx, color);
        }
    }

    /// Reads the pixel at (x, y).
    pub fn get_pixel(&self, x: i64, y: i64) -> (c: Color)
        requires
            self.wf(),
            self.in_bounds(x as int, y as int),
        ensures
            c == self.pixel_at(x as int, y as int),
    {
        proof {
            lemma_mul_upper_bound(y as int, 16383, self.width as int, 16384);
            lemma_mul_inequality(y as int, self.height as int - 1, self.width as int);
            lemma_mul_is_distributive_sub(self.width as int, self.height as int, 1);
        }
        let idx = (y as usize) * self.width + (x as usize);
        self.buffer[idx]
    }

    /// The presentation copy: the buffer as row-major bytes, three per
    /// pixel in r, g, b order, ready to be blitted to a display-backed
    /// texture of the same width and height.
    pub fn pixel_bytes(&self) -> (bytes: Vec<u8>)
        requires
            self.wf(),
        ensures
            bytes@.len() == 3 * self.pixels().len(),
            forall|i: int| 0 <= i < self.pixels().len()
                ==> bytes@[3 * i] == (#[trigger] self.pixels()[i]).r
                    && bytes@[3 * i + 1] == self.pixels()[i].g
                    && bytes@[3 * i + 2] == self.pixels()[i].b,
    {
        let total = self.buffer.len();
        let mut bytes: Vec<u8> = Vec::new();
        let mut i: usize = 0;
        while i < total
            invariant
                i <= total,
                self.buffer@.len() == total,
                bytes@.len() == 3 * i,
                forall|j: int| 0 <= j < i
                    ==> bytes@[3 * j] == (#[trigger] self.buffer@[j]).r
                        && bytes@[3 * j + 1] == self.buffer@[j].g
                        && bytes@[3 * j + 2] == self.buffer@[j].b,
            decreases total - i,
        {
            let c = self.buffer[i];
            bytes.push(c.r);
            bytes.push(c.g);
            bytes.push(c.b);
            i = i + 1;
        }
        bytes
    }
}

} // verus!
