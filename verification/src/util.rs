//! Clipping of rectangles and triangle bounding boxes to a canvas, and
//! integer barycentric coordinates, as the rasterization routines use them.

use vstd::math::max;
use vstd::math::max3;
use vstd::math::min;
use vstd::prelude::*;

verus! {

/// The lower coordinate of the span of `len` pixels anchored at `p`;
/// a negative `len` extends the span backwards from `p`.
pub open spec fn span_lo(p: int, len: int) -> int {
    if len >= 0 {
        p
    } else {
        p + len + 1
    }
}

/// The upper coordinate of the span of `len` pixels anchored at `p`.
pub open spec fn span_hi(p: int, len: int) -> int {
    if len >= 0 {
        p + len - 1
    } else {
        p
    }
}

/// Whether a `w` by `h` rectangle anchored at `(x, y)` covers at least one
/// pixel of a `canvas_width` by `canvas_height` canvas.
pub open spec fn rect_visible(
    x: int,
    y: int,
    w: int,
    h: int,
    canvas_width: int,
    canvas_height: int,
) -> bool {
    &&& w != 0
    &&& h != 0
    &&& span_lo(x, w) < canvas_width
    &&& span_hi(x, w) >= 0
    &&& span_lo(y, h) < canvas_height
    &&& span_hi(y, h) >= 0
}

/// Whether `v` is representable as an `i32`.
pub open spec fn fits_i32(v: int) -> bool {
    i32::MIN <= v <= i32::MAX
}

/// What normalizing a rectangle against a `cw` by `ch` canvas demands of the
/// machine: the canvas sizes and the unclipped span bounds must be
/// representable as the `i32` values the rasterizer works in.
pub open spec fn rect_args_fit(x: int, y: int, w: int, h: int, cw: int, ch: int) -> bool {
    &&& cw <= i32::MAX
    &&& ch <= i32::MAX
    &&& w != 0 ==> fits_i32(span_lo(x, w)) && fits_i32(span_hi(x, w))
    &&& h != 0 ==> fits_i32(span_lo(y, h)) && fits_i32(span_hi(y, h))
}

/// What normalizing the rectangle `(x, y, w, h)` against a `cw` by `ch`
/// canvas returns: a rectangle exactly when the request covers a pixel of
/// the canvas, its unclipped bounds the requested span, its clipped bounds
/// that span clamped to the canvas — ranges safe to iterate over the canvas
/// without further bounds checks.
pub open spec fn rect_normalization(
    r: Option<NormalizedRect>,
    x: int,
    y: int,
    w: int,
    h: int,
    cw: int,
    ch: int,
) -> bool {
    &&& r.is_some() == rect_visible(x, y, w, h, cw, ch)
    &&& r matches Some(nr) ==> {
        &&& nr.ox1 == span_lo(x, w)
        &&& nr.ox2 == span_hi(x, w)
        &&& nr.oy1 == span_lo(y, h)
        &&& nr.oy2 == span_hi(y, h)
        &&& nr.x1 == max(span_lo(x, w), 0)
        &&& nr.x2 == min(span_hi(x, w), cw - 1)
        &&& nr.y1 == max(span_lo(y, h), 0)
        &&& nr.y2 == min(span_hi(y, h), ch - 1)
        &&& cw > 0 ==> 0 <= nr.x1 <= nr.x2 < cw
        &&& ch > 0 ==> 0 <= nr.y1 <= nr.y2 < ch
    }
}

/// A rectangle clipped to a canvas. `x1..=x2` and `y1..=y2` are the clipped
/// ranges, safe to iterate over the canvas without further bounds checks;
/// `ox1..=ox2` and `oy1..=oy2` are the unclipped ranges the caller asked for.
pub struct NormalizedRect {
    pub x1: i32,
    pub x2: i32,
    pub y1: i32,
    pub y2: i32,
    pub ox1: i32,
    pub ox2: i32,
    pub oy1: i32,
    pub oy2: i32,
}

impl Default for NormalizedRect {
    /// A rectangle with every bound zero.
    fn default() -> (r: Self)
        ensures
            r.x1 == 0 && r.x2 == 0 && r.y1 == 0 && r.y2 == 0,
            r.ox1 == 0 && r.ox2 == 0 && r.oy1 == 0 && r.oy2 == 0,
    {
        NormalizedRect { x1: 0, x2: 0, y1: 0, y2: 0, ox1: 0, ox2: 0, oy1: 0, oy2: 0 }
    }
}

/// The point of this function is to produce two ranges `x1..=x2` and `y1..=y2` that
/// are guaranteed to be safe to iterate over the canvas of size canvas_width
/// by canvas_height without any boundary checks.
///
/// Returns `None` exactly when the rectangle covers no pixel of the canvas:
/// when `w` or `h` is zero, or when the whole span lies outside the canvas.
pub fn normalize_rect(
    x: i32,
    y: i32,
    w: i32,
    h: i32,
    canvas_width: usize,
    canvas_height: usize,
) -> (r: Option<NormalizedRect>)
    requires
        rect_args_fit(
            x as int,
            y as int,
            w as int,
            h as int,
            canvas_width as int,
            canvas_height as int,
        ),
    ensures
        rect_normalization(
            r,
            x as int,
            y as int,
            w as int,
            h as int,
            canvas_width as int,
            canvas_height as int,
        ),
{
    // No need to render empty rectangle
    if w == 0 || h == 0 {
        return None;
    }

    // Convert the rectangle to 2-points representation
    let ox1: i32 = if w >= 0 { x } else { x + (w + 1) };
    let ox2: i32 = if w >= 0 { x + (w - 1) } else { x };
    let oy1: i32 = if h >= 0 { y } else { y + (h + 1) };
    let oy2: i32 = if h >= 0 { y + (h - 1) } else { y };

    let cw: i32 = canvas_width as i32;
    let ch: i32 = canvas_height as i32;

    // Cull out invisible rectangle
    if ox1 >= cw || ox2 < 0 || oy1 >= ch || oy2 < 0 {
        return None;
    }

    // Clamp the rectangle to the boundaries
    let x1: i32 = if ox1 < 0 { 0 } else { ox1 };
    let x2: i32 = if ox2 >= cw { cw - 1 } else { ox2 };
    let y1: i32 = if oy1 < 0 { 0 } else { oy1 };
    let y2: i32 = if oy2 >= ch { ch - 1 } else { oy2 };

    Some(NormalizedRect { x1, x2, y1, y2, ox1, ox2, oy1, oy2 })
}

/// The smallest x coordinate of the three triangle corners.
pub open spec fn tri_lo(a: int, b: int, c: int) -> int {
    min(min(a, b), c)
}

/// The largest x coordinate of the three triangle corners.
pub open spec fn tri_hi(a: int, b: int, c: int) -> int {
    max3(a, b, c)
}

/// Computes the bounding box of the triangle `(x1, y1)`, `(x2, y2)`,
/// `(x3, y3)` clipped to a `width` by `height` canvas, leaving it in
/// `lx..=hx` and `ly..=hy`.
///
/// Returns true exactly when the clipped box is nonempty; the ranges are
/// then safe to iterate over the canvas without further bounds checks.
pub fn normalize_triangle(
    width: usize,
    height: usize,
    x1: i32,
    y1: i32,
    x2: i32,
    y2: i32,
    x3: i32,
    y3: i32,
    lx: &mut i32,
    hx: &mut i32,
    ly: &mut i32,
    hy: &mut i32,
) -> (r: bool)
    requires
        width <= i32::MAX,
        height <= i32::MAX,
    ensures
        *final(lx) == max(tri_lo(x1 as int, x2 as int, x3 as int), 0),
        *final(hx) == min(tri_hi(x1 as int, x2 as int, x3 as int), width - 1),
        *final(ly) == max(tri_lo(y1 as int, y2 as int, y3 as int), 0),
        *final(hy) == min(tri_hi(y1 as int, y2 as int, y3 as int), height - 1),
        r == (*final(lx) <= *final(hx) && *final(ly) <= *final(hy)),
        r ==> 0 <= *final(lx) <= *final(hx) < width && 0 <= *final(ly) <= *final(hy) < height,
{
    *lx = x1;
    *hx = x1;
    if *lx > x2 {
        *lx = x2;
    }
    if *lx > x3 {
        *lx = x3;
    }
    if *hx < x2 {
        *hx = x2;
    }
    if *hx < x3 {
        *hx = x3;
    }
    if *lx < 0 {
        *lx = 0;
    }
    if *hx > (width as i32) - 1 {
        *hx = (width as i32) - 1;
    }

    *ly = y1;
    *hy = y1;
    if *ly > y2 {
        *ly = y2;
    }
    if *ly > y3 {
        *ly = y3;
    }
    if *hy < y2 {
        *hy = y2;
    }
    if *hy < y3 {
        *hy = y3;
    }
    if *ly < 0 {
        *ly = 0;
    }
    if *hy > (height as i32) - 1 {
        *hy = (height as i32) - 1;
    }

    *lx <= *hx && *ly <= *hy
}

/// The determinant of the triangle `(x1, y1)`, `(x2, y2)`, `(x3, y3)`:
/// twice its signed area.
pub open spec fn bary_det(x1: int, y1: int, x2: int, y2: int, x3: int, y3: int) -> int {
    (x1 - x3) * (y2 - y3) - (x2 - x3) * (y1 - y3)
}

/// The unnormalized barycentric coordinate of `(xp, yp)` with respect to the
/// first corner of the triangle.
pub open spec fn bary_u1(
    x1: int,
    y1: int,
    x2: int,
    y2: int,
    x3: int,
    y3: int,
    xp: int,
    yp: int,
) -> int {
    (y2 - y3) * (xp - x3) + (x3 - x2) * (yp - y3)
}

/// The unnormalized barycentric coordinate of `(xp, yp)` with respect to the
/// second corner of the triangle.
pub open spec fn bary_u2(
    x1: int,
    y1: int,
    x2: int,
    y2: int,
    x3: int,
    y3: int,
    xp: int,
    yp: int,
) -> int {
    (y3 - y1) * (xp - x3) + (x1 - x3) * (yp - y3)
}

/// The sign of `v`: -1, 0 or 1.
pub open spec fn sign(v: int) -> int {
    if v > 0 {
        1
    } else if v < 0 {
        -1
    } else {
        0
    }
}

/// Whether the coordinate `u` lies on the same side as the determinant:
/// its sign agrees with the determinant's, or it is zero.
pub open spec fn same_side(u: int, det: int) -> bool {
    sign(u) == sign(det) || u == 0
}

/// The sign of `v` as the rasterizer computes it.
fn sign_i32(v: i32) -> (s: i32)
    ensures
        s == sign(v as int),
{
    if v > 0 {
        1
    } else if v < 0 {
        -1
    } else {
        0
    }
}

/// Computes the unnormalized barycentric coordinates `u1`, `u2` (and the
/// triangle determinant `det`; the third coordinate is `det - u1 - u2`) of
/// the point `(xp, yp)` with respect to the triangle `(x1, y1)`, `(x2, y2)`,
/// `(x3, y3)`.
///
/// Returns true exactly when the point lies inside the triangle: when each
/// coordinate is zero or has the sign of the determinant.
///
/// Every intermediate difference, product and sum must be representable as
/// an `i32`.
pub fn barycentric(
    x1: i32,
    y1: i32,
    x2: i32,
    y2: i32,
    x3: i32,
    y3: i32,
    xp: i32,
    yp: i32,
    u1: &mut i32,
    u2: &mut i32,
    det: &mut i32,
) -> (r: bool)
    requires
        fits_i32(x1 - x3),
        fits_i32(x2 - x3),
        fits_i32(x3 - x2),
        fits_i32(y1 - y3),
        fits_i32(y2 - y3),
        fits_i32(y3 - y1),
        fits_i32(xp - x3),
        fits_i32(yp - y3),
        fits_i32((x1 - x3) * (y2 - y3)),
        fits_i32((x2 - x3) * (y1 - y3)),
        fits_i32((y2 - y3) * (xp - x3)),
        fits_i32((x3 - x2) * (yp - y3)),
        fits_i32((y3 - y1) * (xp - x3)),
        fits_i32((x1 - x3) * (yp - y3)),
        fits_i32(bary_det(x1 as int, y1 as int, x2 as int, y2 as int, x3 as int, y3 as int)),
        fits_i32(
            bary_u1(x1 as int, y1 as int, x2 as int, y2 as int, x3 as int, y3 as int, xp as int, yp as int),
        ),
        fits_i32(
            bary_u2(x1 as int, y1 as int, x2 as int, y2 as int, x3 as int, y3 as int, xp as int, yp as int),
        ),
        fits_i32(
            bary_det(x1 as int, y1 as int, x2 as int, y2 as int, x3 as int, y3 as int) - bary_u1(
                x1 as int,
                y1 as int,
                x2 as int,
                y2 as int,
                x3 as int,
                y3 as int,
                xp as int,
                yp as int,
            ),
        ),
        fits_i32(
            bary_det(x1 as int, y1 as int, x2 as int, y2 as int, x3 as int, y3 as int) - bary_u1(
                x1 as int,
                y1 as int,
                x2 as int,
                y2 as int,
                x3 as int,
                y3 as int,
                xp as int,
                yp as int,
            ) - bary_u2(
                x1 as int,
                y1 as int,
                x2 as int,
                y2 as int,
                x3 as int,
                y3 as int,
                xp as int,
                yp as int,
            ),
        ),
    ensures
        *final(det) == bary_det(x1 as int, y1 as int, x2 as int, y2 as int, x3 as int, y3 as int),
        *final(u1) == bary_u1(
            x1 as int,
            y1 as int,
            x2 as int,
            y2 as int,
            x3 as int,
            y3 as int,
            xp as int,
            yp as int,
        ),
        *final(u2) == bary_u2(
            x1 as int,
            y1 as int,
            x2 as int,
            y2 as int,
            x3 as int,
            y3 as int,
            xp as int,
            yp as int,
        ),
        r == (same_side(*final(u1) as int, *final(det) as int) && same_side(
            *final(u2) as int,
            *final(det) as int,
        ) && same_side(*final(det) - *final(u1) - *final(u2), *final(det) as int)),
{
    *det = (x1 - x3) * (y2 - y3) - (x2 - x3) * (y1 - y3);
    *u1 = (y2 - y3) * (xp - x3) + (x3 - x2) * (yp - y3);
    *u2 = (y3 - y1) * (xp - x3) + (x1 - x3) * (yp - y3);
    let u3: i32 = *det - *u1 - *u2;
    (sign_i32(*u1) == sign_i32(*det) || *u1 == 0) && (sign_i32(*u2) == sign_i32(*det) || *u2 == 0)
        && (sign_i32(u3) == sign_i32(*det) || u3 == 0)
}

} // verus!
