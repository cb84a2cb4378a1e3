//! An owned pixel buffer with a width and a height, and bounded views into
//! it: the coordinate checks that make every pixel access fall inside the
//! buffer.

use crate::colors::{alpha, blue, green, red, spec_alpha, spec_blue, spec_green, spec_red};
use crate::util::{normalize_rect, rect_visible, span_hi, span_lo, NormalizedRect};
use vstd::math::max;
use vstd::math::min;
use vstd::prelude::*;

verus! {

/// A rectangular pixel buffer. It owns the pixels that the drawing
/// routines write to; every access goes through a bounds check first.
pub struct Canvas {
    pixels: Vec<u32>,
    width: usize,
    height: usize,
}

/// A rectangular region of a parent canvas's pixel buffer, described by the
/// offset of its first pixel, its own width and height, and the parent's
/// stride. It does not own the pixels; it records where inside the parent
/// buffer they lie.
pub struct SubCanvas {
    offset: usize,
    width: usize,
    height: usize,
    stride: usize,
}

/// Where a region of `w` by `h` pixels, starting `offset` pixels into a
/// buffer whose rows are `stride` pixels apart, ends inside that buffer.
pub open spec fn region_end(offset: int, w: int, h: int, stride: int) -> int {
    offset + (if h > 0 {
        (h - 1) * stride
    } else {
        0
    }) + w
}

impl Canvas {
    /// The width of the canvas, in pixels.
    pub closed spec fn spec_width(&self) -> usize {
        self.width
    }

    /// The height of the canvas, in pixels.
    pub closed spec fn spec_height(&self) -> usize {
        self.height
    }

    /// The pixel buffer, rows of `spec_width()` pixels stored one after the
    /// other; it may hold more pixels than the canvas uses.
    pub closed spec fn spec_pixels(&self) -> Seq<u32> {
        self.pixels@
    }

    /// The buffer always holds at least `width * height` pixels.
    #[verifier::type_invariant]
    pub closed spec fn wf(&self) -> bool {
        self.pixels.len() >= self.width * self.height
    }

    /// The coordinates whose pixel `set_pixel` writes: inside the canvas
    /// bounds.
    pub open spec fn writes_pixel_at(&self, x: int, y: int) -> bool {
        0 <= x < self.spec_width() && 0 <= y < self.spec_height()
    }

    /// Creates a new Canvas and allocates a pixel buffer for it, with every
    /// pixel zero.
    pub fn new(width: usize, height: usize) -> (r: Canvas)
        requires
            width * height <= usize::MAX,
        ensures
            r.spec_width() == width,
            r.spec_height() == height,
            r.spec_pixels().len() == width * height,
            forall|i: int| 0 <= i < width * height ==> r.spec_pixels()[i] == 0,
    {
        let n: usize = width * height;
        let mut pixels: Vec<u32> = Vec::new();
        while pixels.len() < n
            invariant
                pixels@.len() <= n,
                forall|i: int| 0 <= i < pixels@.len() ==> pixels@[i] == 0,
            decreases n - pixels@.len(),
        {
            pixels.push(0u32);
        }
        let ghost buffer = pixels@;
        let r = Canvas::from_buffer(pixels, width, height);
        r.unwrap()
    }

    /// Creates a new canvas from a preallocated pixel buffer.
    ///
    /// Returns `None` exactly when the provided pixel buffer is too small,
    /// holding fewer than `width * height` pixels.
    pub fn from_buffer(pixels: Vec<u32>, width: usize, height: usize) -> (r: Option<Canvas>)
        ensures
            r.is_some() == (width * height <= pixels@.len()),
            r matches Some(c) ==> {
                &&& c.spec_width() == width
                &&& c.spec_height() == height
                &&& c.spec_pixels() == pixels@
            },
    {
        let len: usize = pixels.len();
        match width.checked_mul(height) {
            None => None,
            Some(n) => {
                if len < n {
                    None
                } else {
                    Some(Canvas { pixels, width, height })
                }
            },
        }
    }

    /// Returns the width of the underlying canvas
    pub fn get_width(&self) -> (r: usize)
        ensures
            r == self.spec_width(),
    {
        self.width
    }

    /// Returns the height of the underlying canvas
    pub fn get_height(&self) -> (r: usize)
        ensures
            r == self.spec_height(),
    {
        self.height
    }

    /// Sets an individual pixel in the canvas to the given color.
    ///
    /// This function does a bounds check to make sure that the provided
    /// coordinates are within the bounds of the canvas: a write outside
    /// those bounds is a no-op.
    pub fn set_pixel(&mut self, x: i32, y: i32, color: u32)
        ensures
            final(self).spec_width() == old(self).spec_width(),
            final(self).spec_height() == old(self).spec_height(),
            old(self).writes_pixel_at(x as int, y as int) ==> final(self).spec_pixels() == old(
                self,
            ).spec_pixels().update(
                y as int * old(self).spec_width() as int + x as int,
                color,
            ),
            !old(self).writes_pixel_at(x as int, y as int) ==> final(self).spec_pixels() == old(
                self,
            ).spec_pixels(),
    {
        proof {
            use_type_invariant(&*self);
        }
        if x >= 0 && y >= 0 {
            let xu: usize = x as usize;
            let yu: usize = y as usize;
            if xu < self.width && yu < self.height {
                proof {
                    assert(yu * self.width + xu < self.width * self.height) by (nonlinear_arith)
                        requires
                            xu < self.width,
                            yu < self.height,
                    ;
                }
                let idx: usize = yu * self.width + xu;
                self.pixels[idx] = color;
            }
        }
    }

    /// Sets the pixel at `(x, y)` of a region of this canvas's buffer to the
    /// given color, writing through the view with the view's own stride.
    ///
    /// This function does a bounds check to make sure that the provided
    /// coordinates are within the bounds of the region: a write outside
    /// those bounds is a no-op.
    pub fn set_view_pixel(&mut self, view: &SubCanvas, x: i32, y: i32, color: u32)
        requires
            view.region_within(old(self).spec_pixels().len() as int),
        ensures
            final(self).spec_width() == old(self).spec_width(),
            final(self).spec_height() == old(self).spec_height(),
            view.writes_pixel_at(x as int, y as int) ==> final(self).spec_pixels() == old(
                self,
            ).spec_pixels().update(
                view.spec_offset() + y as int * view.spec_stride() as int + x as int,
                color,
            ),
            !view.writes_pixel_at(x as int, y as int) ==> final(self).spec_pixels() == old(
                self,
            ).spec_pixels(),
    {
        proof {
            use_type_invariant(&*self);
            use_type_invariant(view);
        }
        if x >= 0 && y >= 0 {
            let xu: usize = x as usize;
            let yu: usize = y as usize;
            if xu < view.width && yu < view.height {
                proof {
                    assert(view.offset + yu * view.stride + xu < view.offset + (view.height - 1)
                        * view.stride + view.width) by (nonlinear_arith)
                        requires
                            xu < view.width,
                            yu < view.height,
                            view.stride >= 0,
                    ;
                }
                let idx: usize = view.offset + yu * view.stride + xu;
                self.pixels[idx] = color;
            }
        }
    }

    /// The point of this function is to produce two ranges `x1..=x2` and
    /// `y1..=y2` that are guaranteed to be safe to iterate over this canvas
    /// without any boundary checks.
    ///
    /// Returns `None` exactly when the rectangle covers no pixel of the
    /// canvas.
    pub fn normalize_rect(&self, x: i32, y: i32, w: i32, h: i32) -> (r: Option<NormalizedRect>)
        requires
            crate::util::rect_args_fit(
                x as int,
                y as int,
                w as int,
                h as int,
                self.spec_width() as int,
                self.spec_height() as int,
            ),
        ensures
            crate::util::rect_normalization(
                r,
                x as int,
                y as int,
                w as int,
                h as int,
                self.spec_width() as int,
                self.spec_height() as int,
            ),
    {
        normalize_rect(x, y, w, h, self.width, self.height)
    }

    /// Creates a view of a rectangular region of this canvas, clipped to the
    /// canvas bounds.
    ///
    /// Returns `None` if the provided dimensions are completely outside the
    /// bounds of the canvas or if the created subcanvas would have a size of
    /// 0. The returned region always lies inside this canvas's pixel buffer.
    pub fn subcanvas(&self, x: i32, y: i32, w: i32, h: i32) -> (r: Option<SubCanvas>)
        requires
            crate::util::rect_args_fit(
                x as int,
                y as int,
                w as int,
                h as int,
                self.spec_width() as int,
                self.spec_height() as int,
            ),
        ensures
            r.is_some() == ({
                let x1 = max(span_lo(x as int, w as int), 0);
                let x2 = min(span_hi(x as int, w as int), self.spec_width() - 1);
                let y1 = max(span_lo(y as int, h as int), 0);
                let y2 = min(span_hi(y as int, h as int), self.spec_height() - 1);
                rect_visible(
                    x as int,
                    y as int,
                    w as int,
                    h as int,
                    self.spec_width() as int,
                    self.spec_height() as int,
                ) && !(x2 - x1 + 1 == 0 && y2 - y1 + 1 == 0)
            }),
            r matches Some(sc) ==> ({
                let x1 = max(span_lo(x as int, w as int), 0);
                let x2 = min(span_hi(x as int, w as int), self.spec_width() - 1);
                let y1 = max(span_lo(y as int, h as int), 0);
                let y2 = min(span_hi(y as int, h as int), self.spec_height() - 1);
                &&& sc.spec_stride() == self.spec_width()
                &&& sc.spec_offset() == y1 * self.spec_width() + x1
                &&& sc.spec_width() == x2 - x1 + 1
                &&& sc.spec_height() == y2 - y1 + 1
                &&& sc.region_within(self.spec_pixels().len() as int)
            }),
    {
        proof {
            use_type_invariant(&*self);
        }
        match normalize_rect(x, y, w, h, self.width, self.height) {
            None => None,
            Some(nr) => {
                proof {
                    assert(nr.x2 - nr.x1 + 1 >= 0);
                    assert(nr.y2 - nr.y1 + 1 >= 0);
                }
                let sub_w: usize = (nr.x2 - nr.x1 + 1) as usize;
                let sub_h: usize = (nr.y2 - nr.y1 + 1) as usize;
                if sub_w == 0 && sub_h == 0 {
                    None
                } else {
                    proof {
                        let w_i: int = self.width as int;
                        let h_i: int = self.height as int;
                        let x1_i: int = nr.x1 as int;
                        let y1_i: int = nr.y1 as int;
                        let sw_i: int = sub_w as int;
                        let sh_i: int = sub_h as int;
                        assert(sub_h == 0 ==> nr.y1 == 0 && self.height == 0);
                        assert(sh_i > 0 ==> {
                            &&& y1_i * w_i + x1_i + (sh_i - 1) * w_i + sw_i <= (h_i - 1) * w_i
                                + w_i
                            &&& y1_i * w_i + x1_i <= (h_i - 1) * w_i + w_i
                        }) by (nonlinear_arith)
                            requires
                                x1_i >= 0,
                                y1_i >= 0,
                                w_i >= 0,
                                sw_i >= 0,
                                x1_i + sw_i - 1 <= w_i - 1,
                                sh_i > 0 ==> y1_i + sh_i - 1 <= h_i - 1,
                        ;
                        assert((h_i - 1) * w_i + w_i == w_i * h_i) by (nonlinear_arith);
                        assert(sh_i == 0 ==> y1_i * w_i == 0) by (nonlinear_arith)
                            requires
                                sh_i == 0 ==> y1_i == 0,
                        ;
                    }
                    let offset: usize = (nr.y1 as usize) * self.width + (nr.x1 as usize);
                    Some(
                        SubCanvas {
                            offset,
                            width: sub_w,
                            height: sub_h,
                            stride: self.width,
                        },
                    )
                }
            },
        }
    }

    /// Gets the bytes of the underlying pixel buffer, four bytes for each of
    /// the `width * height` canvas pixels: red, green, blue, alpha.
    pub fn get_data(&self) -> (r: Vec<u8>)
        ensures
            r@.len() == 4 * (self.spec_width() * self.spec_height()),
            forall|i: int|
                0 <= i < self.spec_width() * self.spec_height() ==> {
                    &&& r@[4 * i] == spec_red(#[trigger] self.spec_pixels()[i])
                    &&& r@[4 * i + 1] == spec_green(self.spec_pixels()[i])
                    &&& r@[4 * i + 2] == spec_blue(self.spec_pixels()[i])
                    &&& r@[4 * i + 3] == spec_alpha(self.spec_pixels()[i])
                },
    {
        proof {
            use_type_invariant(&*self);
        }
        let n: usize = self.width * self.height;
        let mut out: Vec<u8> = Vec::new();
        let mut i: usize = 0;
        while i < n
            invariant
                i <= n,
                n == self.spec_width() * self.spec_height(),
                n <= self.spec_pixels().len(),
                out@.len() == 4 * i,
                forall|j: int|
                    0 <= j < i ==> {
                        &&& out@[4 * j] == spec_red(#[trigger] self.spec_pixels()[j])
                        &&& out@[4 * j + 1] == spec_green(self.spec_pixels()[j])
                        &&& out@[4 * j + 2] == spec_blue(self.spec_pixels()[j])
                        &&& out@[4 * j + 3] == spec_alpha(self.spec_pixels()[j])
                    },
            decreases n - i,
        {
            let p: u32 = self.pixels[i];
            out.push(red(p));
            out.push(green(p));
            out.push(blue(p));
            out.push(alpha(p));
            i = i + 1;
        }
        out
    }
}

impl SubCanvas {
    /// How many pixels into the parent buffer the region's first pixel lies.
    pub closed spec fn spec_offset(&self) -> usize {
        self.offset
    }

    /// The width of the region, in pixels.
    pub closed spec fn spec_width(&self) -> usize {
        self.width
    }

    /// The height of the region, in pixels.
    pub closed spec fn spec_height(&self) -> usize {
        self.height
    }

    /// How many pixels apart consecutive rows of the region lie in the
    /// parent buffer.
    pub closed spec fn spec_stride(&self) -> usize {
        self.stride
    }

    /// The region's end never exceeds the largest possible buffer.
    #[verifier::type_invariant]
    pub closed spec fn wf(&self) -> bool {
        region_end(
            self.offset as int,
            self.width as int,
            self.height as int,
            self.stride as int,
        ) <= usize::MAX
    }

    /// Whether every pixel of the region lies inside a buffer of `buf_len`
    /// pixels, so that reading or writing the region needs no further bounds
    /// checks.
    pub open spec fn region_within(&self, buf_len: int) -> bool {
        self.spec_width() > 0 && self.spec_height() > 0 ==> region_end(
            self.spec_offset() as int,
            self.spec_width() as int,
            self.spec_height() as int,
            self.spec_stride() as int,
        ) <= buf_len
    }

    /// The coordinates whose pixel `Canvas::set_view_pixel` writes: inside
    /// the region's bounds.
    pub open spec fn writes_pixel_at(&self, x: int, y: int) -> bool {
        0 <= x < self.spec_width() && 0 <= y < self.spec_height()
    }

    /// Returns the width of the underlying canvas
    pub fn get_width(&self) -> (r: usize)
        ensures
            r == self.spec_width(),
    {
        self.width
    }

    /// Returns the height of the underlying canvas
    pub fn get_height(&self) -> (r: usize)
        ensures
            r == self.spec_height(),
    {
        self.height
    }

    /// The point of this function is to produce two ranges `x1..=x2` and
    /// `y1..=y2` that are guaranteed to be safe to iterate over this region
    /// without any boundary checks.
    ///
    /// Returns `None` exactly when the rectangle covers no pixel of the
    /// region.
    pub fn normalize_rect(&self, x: i32, y: i32, w: i32, h: i32) -> (r: Option<NormalizedRect>)
        requires
            crate::util::rect_args_fit(
                x as int,
                y as int,
                w as int,
                h as int,
                self.spec_width() as int,
                self.spec_height() as int,
            ),
        ensures
            crate::util::rect_normalization(
                r,
                x as int,
                y as int,
                w as int,
                h as int,
                self.spec_width() as int,
                self.spec_height() as int,
            ),
    {
        normalize_rect(x, y, w, h, self.width, self.height)
    }

    /// Creates a view of a rectangular region of this region, clipped to its
    /// bounds.
    ///
    /// Returns `None` if the provided dimensions are completely outside the
    /// bounds of the region or if the created subcanvas would have a size of
    /// 0. The new region lies inside this one: it fits every buffer that
    /// this one fits.
    pub fn subcanvas(&self, x: i32, y: i32, w: i32, h: i32) -> (r: Option<SubCanvas>)
        requires
            crate::util::rect_args_fit(
                x as int,
                y as int,
                w as int,
                h as int,
                self.spec_width() as int,
                self.spec_height() as int,
            ),
        ensures
            r.is_some() == ({
                let x1 = max(span_lo(x as int, w as int), 0);
                let x2 = min(span_hi(x as int, w as int), self.spec_width() - 1);
                let y1 = max(span_lo(y as int, h as int), 0);
                let y2 = min(span_hi(y as int, h as int), self.spec_height() - 1);
                rect_visible(
                    x as int,
                    y as int,
                    w as int,
                    h as int,
                    self.spec_width() as int,
                    self.spec_height() as int,
                ) && !(x2 - x1 + 1 == 0 && y2 - y1 + 1 == 0)
            }),
            r matches Some(sc) ==> ({
                let x1 = max(span_lo(x as int, w as int), 0);
                let x2 = min(span_hi(x as int, w as int), self.spec_width() - 1);
                let y1 = max(span_lo(y as int, h as int), 0);
                let y2 = min(span_hi(y as int, h as int), self.spec_height() - 1);
                &&& sc.spec_stride() == self.spec_stride()
                &&& sc.spec_offset() == self.spec_offset() + y1 * self.spec_stride() + x1
                &&& sc.spec_width() == x2 - x1 + 1
                &&& sc.spec_height() == y2 - y1 + 1
                &&& forall|buf_len: int|
                    self.region_within(buf_len) ==> #[trigger] sc.region_within(buf_len)
            }),
    {
        proof {
            use_type_invariant(&*self);
        }
        match normalize_rect(x, y, w, h, self.width, self.height) {
            None => None,
            Some(nr) => {
                proof {
                    assert(nr.x2 - nr.x1 + 1 >= 0);
                    assert(nr.y2 - nr.y1 + 1 >= 0);
                }
                let sub_w: usize = (nr.x2 - nr.x1 + 1) as usize;
                let sub_h: usize = (nr.y2 - nr.y1 + 1) as usize;
                if sub_w == 0 && sub_h == 0 {
                    None
                } else {
                    proof {
                        let off_i: int = self.offset as int;
                        let s_i: int = self.stride as int;
                        let w_i: int = self.width as int;
                        let h_i: int = self.height as int;
                        let x1_i: int = nr.x1 as int;
                        let y1_i: int = nr.y1 as int;
                        let sw_i: int = sub_w as int;
                        let sh_i: int = sub_h as int;
                        assert(sub_h == 0 ==> nr.y1 == 0 && self.height == 0);
                        assert(sh_i > 0 ==> {
                            &&& off_i + y1_i * s_i + x1_i + (sh_i - 1) * s_i + sw_i <= off_i + (
                            h_i - 1) * s_i + w_i
                            &&& off_i + y1_i * s_i + x1_i <= off_i + (h_i - 1) * s_i + w_i
                        }) by (nonlinear_arith)
                            requires
                                x1_i >= 0,
                                y1_i >= 0,
                                s_i >= 0,
                                w_i >= 0,
                                sw_i >= 0,
                                x1_i + sw_i - 1 <= w_i - 1,
                                sh_i > 0 ==> y1_i + sh_i - 1 <= h_i - 1,
                        ;
                        assert(sh_i == 0 ==> y1_i * s_i == 0) by (nonlinear_arith)
                            requires
                                sh_i == 0 ==> y1_i == 0,
                        ;
                    }
                    let offset: usize = self.offset + (nr.y1 as usize) * self.stride + (
                    nr.x1 as usize);
                    Some(
                        SubCanvas {
                            offset,
                            width: sub_w,
                            height: sub_h,
                            stride: self.stride,
                        },
                    )
                }
            },
        }
    }
}

} // verus!
