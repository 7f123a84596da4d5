//! Placement of an image inside the viewport under a fit policy.
//!
//! The rectangle is computed in exact integer arithmetic. With
//! `ratio = (w / h) / (vw / vh) = (w * vh) / (h * vw)`, the aspect test
//! compares the cross products `w * vh` and `h * vw`, and a scaled extent is
//! the truncated quotient of a product by one of them.

use vstd::arithmetic::div_mod::lemma_multiply_divide_le;
use vstd::prelude::*;

verus! {

/// Largest coordinate or extent a display rectangle can hold.
pub const MAX_EXTENT: u32 = 32767;

/// Which ratio an aspect-preserving policy tests.
#[derive(Debug, Clone, Copy, PartialEq, Eq, Structural)]
pub enum AspectMode {
    /// Tests the reciprocal of the image-to-viewport aspect ratio.
    Fill,
    /// Tests the image-to-viewport aspect ratio: the whole image is shown,
    /// with bars in the viewport.
    Fit,
}

/// Fit policy for placing an image in the viewport.
#[derive(Debug, Clone, Copy, PartialEq, Eq, Structural)]
pub enum ContentMode {
    /// Native size, centred.
    Native,
    /// Scaled with its aspect ratio kept.
    Aspect(AspectMode),
    /// Stretched to the whole viewport.
    ScaleToFill,
}

/// Destination rectangle in viewport pixel coordinates.
#[derive(Debug, Clone, Copy, PartialEq, Eq, Structural)]
pub struct DisplayRect {
    pub x: i16,
    pub y: i16,
    pub w: i16,
    pub h: i16,
}

/// Where an aspect-preserving policy puts the image.
#[derive(Debug, Clone, Copy, PartialEq, Eq, Structural)]
pub enum Placement {
    /// The aspect ratios agree: the image covers the viewport exactly.
    Full,
    /// Full height, centred horizontally.
    Horizontal,
    /// Full width, centred vertically.
    Vertical,
}

impl View for DisplayRect {
    type V = (int, int, int, int);

    open spec fn view(&self) -> (int, int, int, int) {
        (self.x as int, self.y as int, self.w as int, self.h as int)
    }
}

/// Halving that rounds toward zero, as division of machine integers does.
pub open spec fn half(d: int) -> int {
    if d >= 0 {
        d / 2
    } else {
        -((-d) / 2)
    }
}

/// Sizes that a display rectangle can describe.
pub open spec fn extent_ok(size: (u32, u32)) -> bool {
    size.0 <= MAX_EXTENT && size.1 <= MAX_EXTENT
}

/// Inputs on which a rectangle is defined: the viewport fits the coordinate
/// range, and so does the image under `Native`, whose rectangle has the
/// image's size.
pub open spec fn rect_inputs_ok(mode: ContentMode, viewport: (u32, u32), image: (u32, u32)) -> bool {
    &&& extent_ok(viewport)
    &&& (mode == ContentMode::Native ==> extent_ok(image))
}

/// `w * vh`, the numerator of `ratio` over the common denominator `h * vh`.
pub open spec fn image_side(viewport: (u32, u32), image: (u32, u32)) -> int {
    image.0 as int * viewport.1 as int
}

/// `h * vw`, the denominator of `ratio` over the common denominator `h * vh`.
pub open spec fn viewport_side(viewport: (u32, u32), image: (u32, u32)) -> int {
    image.1 as int * viewport.0 as int
}

/// The ratio an aspect policy tests, as numerator and denominator: `ratio`
/// itself for `Fit`, its reciprocal for `Fill`.
pub open spec fn ratio_sides(mode: AspectMode, viewport: (u32, u32), image: (u32, u32)) -> (int, int) {
    let a = image_side(viewport, image);
    let b = viewport_side(viewport, image);
    match mode {
        AspectMode::Fit => (a, b),
        AspectMode::Fill => (b, a),
    }
}

/// The placement of an aspect policy: a tested ratio of one covers the
/// viewport, below one centres horizontally, above one centres vertically.
pub open spec fn placement_of(mode: AspectMode, viewport: (u32, u32), image: (u32, u32)) -> Placement {
    let (p, q) = ratio_sides(mode, viewport, image);
    if p == q {
        Placement::Full
    } else if p < q {
        Placement::Horizontal
    } else {
        Placement::Vertical
    }
}

/// The destination rectangle `(x, y, w, h)` of an image under a fit policy.
/// Under an aspect policy testing `p / q`, the horizontally centred width is
/// `vw * p / q` and the vertically centred height `vh * q / p`, truncated.
pub open spec fn rect_of(mode: ContentMode, viewport: (u32, u32), image: (u32, u32)) -> (int, int, int, int) {
    let (vw, vh) = (viewport.0 as int, viewport.1 as int);
    let (w, h) = (image.0 as int, image.1 as int);
    match mode {
        ContentMode::Native => (half(vw - w), half(vh - h), w, h),
        ContentMode::ScaleToFill => (0, 0, vw, vh),
        ContentMode::Aspect(m) => {
            let (p, q) = ratio_sides(m, viewport, image);
            match placement_of(m, viewport, image) {
                Placement::Full => (0, 0, vw, vh),
                Placement::Horizontal => {
                    let sw = vw * p / q;
                    (half(vw - sw), 0, sw, vh)
                },
                Placement::Vertical => {
                    let sh = vh * q / p;
                    (0, half(vh - sh), vw, sh)
                },
            }
        },
    }
}

/// The rectangle lies within `[0, vw) x [0, vh)`.
pub open spec fn within(r: (int, int, int, int), viewport: (u32, u32)) -> bool {
    &&& 0 <= r.0
    &&& 0 <= r.1
    &&& 0 <= r.2
    &&& 0 <= r.3
    &&& r.0 + r.2 <= viewport.0
    &&& r.1 + r.3 <= viewport.1
}

fn half_toward_zero(d: i32) -> (r: i32)
    requires
        -65536 < d < 65536,
    ensures
        r as int == half(d as int),
{
    if d >= 0 {
        d / 2
    } else {
        -((-d) / 2)
    }
}

/// Bound on a cross product of an image extent and a viewport extent.
pub open spec fn side_bound() -> int {
    u32::MAX as int * MAX_EXTENT as int
}

proof fn lemma_side_bound(a: u32, b: u32)
    requires
        b <= MAX_EXTENT,
    ensures
        0 <= a as int * b as int <= side_bound(),
{
    assert(0 <= a as int * b as int <= u32::MAX as int * MAX_EXTENT as int) by (nonlinear_arith)
        requires
            a <= u32::MAX,
            b <= MAX_EXTENT,
    ;
}

/// `v * p / q` with `p < q` stays within `[0, v]`.
proof fn lemma_scaled_within(v: int, p: int, q: int)
    requires
        0 <= v,
        0 <= p < q,
    ensures
        0 <= v * p / q <= v,
{
    assert(0 <= v * p && v * p <= q * v) by (nonlinear_arith)
        requires
            0 <= v,
            0 <= p < q,
    ;
    lemma_multiply_divide_le(v * p, q, v);
    assert(0 <= v * p / q) by (nonlinear_arith)
        requires
            0 <= v * p,
            0 < q,
    ;
}

/// `v * p / q` for a viewport extent `v` and `p < q`: an extent no larger than `v`.
fn scaled_extent(v: u32, p: u64, q: u64) -> (r: u32)
    requires
        v <= MAX_EXTENT,
        p < q,
        q <= side_bound(),
    ensures
        r as int == v as int * p as int / q as int,
        r <= v,
{
    proof {
        lemma_scaled_within(v as int, p as int, q as int);
        assert(v as int * p as int <= MAX_EXTENT as int * side_bound()) by (nonlinear_arith)
            requires
                v <= MAX_EXTENT,
                p <= side_bound(),
        ;
    }
    ((v as u64 * p) / q) as u32
}

/// The numerator and denominator the aspect policy `mode` tests.
fn aspect_sides(mode: AspectMode, viewport: (u32, u32), image: (u32, u32)) -> (r: (u64, u64))
    requires
        extent_ok(viewport),
    ensures
        (r.0 as int, r.1 as int) == ratio_sides(mode, viewport, image),
        r.0 <= side_bound(),
        r.1 <= side_bound(),
{
    proof {
        lemma_side_bound(image.0, viewport.1);
        lemma_side_bound(image.1, viewport.0);
    }
    let a = image.0 as u64 * viewport.1 as u64;
    let b = image.1 as u64 * viewport.0 as u64;
    match mode {
        AspectMode::Fit => (a, b),
        AspectMode::Fill => (b, a),
    }
}

/// Whether `new_with_mode` can place an image of `image` in `viewport`
/// under `mode`.
pub fn placeable(mode: ContentMode, viewport: (u32, u32), image: (u32, u32)) -> (r: bool)
    ensures
        r == rect_inputs_ok(mode, viewport, image),
{
    let viewport_fits = viewport.0 <= MAX_EXTENT && viewport.1 <= MAX_EXTENT;
    let image_fits = match mode {
        ContentMode::Native => image.0 <= MAX_EXTENT && image.1 <= MAX_EXTENT,
        _ => true,
    };
    viewport_fits && image_fits
}

impl DisplayRect {
    /// The rectangle of an image of size `image` in a viewport of size
    /// `viewport` under the policy `mode`.
    pub fn new_with_mode(mode: ContentMode, viewport: (u32, u32), image: (u32, u32)) -> (r: Self)
        requires
            rect_inputs_ok(mode, viewport, image),
        ensures
            r@ == rect_of(mode, viewport, image),
    {
        let (vw, vh) = viewport;
        let (w, h) = image;
        match mode {
            ContentMode::Native => {
                let x = half_toward_zero(vw as i32 - w as i32);
                let y = half_toward_zero(vh as i32 - h as i32);
                DisplayRect { x: x as i16, y: y as i16, w: w as i16, h: h as i16 }
            },
            ContentMode::ScaleToFill => DisplayRect { x: 0, y: 0, w: vw as i16, h: vh as i16 },
            ContentMode::Aspect(m) => {
                let (p, q) = aspect_sides(m, viewport, image);
                if p == q {
                    DisplayRect { x: 0, y: 0, w: vw as i16, h: vh as i16 }
                } else if p < q {
                    let sw = scaled_extent(vw, p, q);
                    let x = half_toward_zero(vw as i32 - sw as i32);
                    DisplayRect { x: x as i16, y: 0, w: sw as i16, h: vh as i16 }
                } else {
                    let sh = scaled_extent(vh, q, p);
                    let y = half_toward_zero(vh as i32 - sh as i32);
                    DisplayRect { x: 0, y: y as i16, w: vw as i16, h: sh as i16 }
                }
            },
        }
    }
}

/// The rectangle stays inside the viewport under every policy that scales,
/// whatever the image's size; under `Native` it does when the image fits in
/// the viewport, and goes past its edges otherwise.
pub proof fn lemma_rect_within_viewport(mode: ContentMode, viewport: (u32, u32), image: (u32, u32))
    requires
        mode == ContentMode::Native ==> image.0 <= viewport.0 && image.1 <= viewport.1,
    ensures
        within(rect_of(mode, viewport, image), viewport),
{
    let (vw, vh) = (viewport.0 as int, viewport.1 as int);
    if let ContentMode::Aspect(m) = mode {
        let (p, q) = ratio_sides(m, viewport, image);
        assert(0 <= image_side(viewport, image) && 0 <= viewport_side(viewport, image)) by (nonlinear_arith)
            requires
                image_side(viewport, image) == image.0 as int * viewport.1 as int,
                viewport_side(viewport, image) == image.1 as int * viewport.0 as int,
        ;
        if p < q {
            lemma_scaled_within(vw, p, q);
        } else if q < p {
            lemma_scaled_within(vh, q, p);
        }
    }
}

/// `ScaleToFill` ignores the image: the rectangle is the whole viewport.
pub proof fn lemma_scale_to_fill_is_viewport(viewport: (u32, u32), image: (u32, u32))
    ensures
        rect_of(ContentMode::ScaleToFill, viewport, image) == (0int, 0int, viewport.0 as int, viewport.1 as int),
{
}

/// `AspectFit` and `AspectFill` make reciprocal decisions for the same inputs:
/// where one centres horizontally the other centres vertically, and both
/// cover the viewport exactly when the aspect ratios agree.
pub proof fn lemma_fit_fill_reciprocal(viewport: (u32, u32), image: (u32, u32))
    ensures
        placement_of(AspectMode::Fit, viewport, image) == Placement::Horizontal
            <==> placement_of(AspectMode::Fill, viewport, image) == Placement::Vertical,
        placement_of(AspectMode::Fit, viewport, image) == Placement::Vertical
            <==> placement_of(AspectMode::Fill, viewport, image) == Placement::Horizontal,
        placement_of(AspectMode::Fit, viewport, image) == Placement::Full
            <==> placement_of(AspectMode::Fill, viewport, image) == Placement::Full,
        placement_of(AspectMode::Fit, viewport, image) == Placement::Full ==> rect_of(
            ContentMode::Aspect(AspectMode::Fit),
            viewport,
            image,
        ) == rect_of(ContentMode::Aspect(AspectMode::Fill), viewport, image),
{
}

} // verus!
