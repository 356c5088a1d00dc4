//! The layout planner: converts an image's pixel dimensions at a given
//! resolution into physical page units, selects the page orientation,
//! computes the uniform scale and the centering offset, and packages the
//! result for the document builder.

use vstd::prelude::*;

use crate::geometry::Position;
use crate::geometry::ScaleCalculator;
use crate::geometry::axis_position_in_range;
use crate::geometry::compute_position;
use crate::geometry::compute_scale;
use crate::geometry::orientation_in_range;
use crate::geometry::scale_in_range;
use crate::geometry::select_orientation;
use crate::rat::Rat;
use crate::rat::RatV;
use crate::rat::in_i128;
use crate::rat::ratv_add;
use crate::rat::ratv_div;
use crate::rat::ratv_int;
use crate::rat::ratv_le;
use crate::rat::ratv_mul;

verus! {

/// Largest resolution numerator and denominator the planner accepts; far
/// above any real resolution, it keeps every intermediate product of the
/// exact arithmetic inside an `i128`.
pub const MAX_DPI_PART: i128 = 1_000_000_000;

/// Why a layout could not be planned for an image.
#[derive(Debug, Clone, Copy, PartialEq, Eq, Structural)]
pub enum LayoutError {
    /// The image's reported pixel width or height is zero.
    InvalidDimension,
    /// The resolution is zero or negative.
    InvalidResolution,
}

/// The physical length, in page units, of `pixels` pixels at resolution
/// `dpi`: `pixels` pixels are `pixels * 72 / dpi` points, and a point is
/// `127/360` page units.
pub open spec fn px_to_units_v(pixels: int, dpi: RatV) -> RatV {
    ratv_mul(ratv_div(ratv_int(pixels * 72), dpi), RatV { num: 127, den: 360 })
}

/// All products taken while converting `pixels` at `dpi` fit in an `i128`.
pub open spec fn units_in_range(pixels: int, dpi: RatV) -> bool {
    &&& in_i128((pixels * 72) * dpi.den)
    &&& in_i128(((pixels * 72) * dpi.den) * 127)
    &&& in_i128(dpi.num * 360)
}

/// Converts a pixel length at resolution `dpi` into page units.
pub fn pixels_to_page_units(pixels: u32, dpi: &Rat) -> (r: Rat)
    requires
        dpi.wf(),
        dpi@.num > 0,
        units_in_range(pixels as int, dpi@),
    ensures
        r@ == px_to_units_v(pixels as int, dpi@),
        r.wf(),
        pixels > 0 ==> r@.num > 0,
{
    let base = Rat::new((pixels as i128) * 72, 1);
    let points = base.div(dpi);
    let r = points.mul(&Rat::new(127, 360));
    proof {
        if pixels > 0 {
            assert(r@.num > 0) by (nonlinear_arith)
                requires
                    r@.num == ((pixels as int * 72) * dpi@.den) * 127,
                    pixels as int >= 1,
                    dpi@.den > 0,
            ;
        }
    }
    r
}

/// The planned layout for one image: the chosen page's size, the uniform
/// scale, the centering offset, and the resolution the conversion used.
#[derive(Debug, Clone, Copy, PartialEq, Eq, Structural)]
pub struct ImageParameter {
    pub scale: Rat,
    pub position: Position,
    pub page_width: Rat,
    pub page_height: Rat,
    pub dpi: Rat,
}

/// The plan `p` is exactly the layout that the model computes for an image
/// of `w_px` by `h_px` pixels at resolution `dpi`.
pub open spec fn plan_matches(p: ImageParameter, w_px: int, h_px: int, dpi: RatV) -> bool {
    let w = px_to_units_v(w_px, dpi);
    let h = px_to_units_v(h_px, dpi);
    let o = select_orientation(w, h);
    &&& p.scale@ == compute_scale(w, h, o.spec_page_width(), o.spec_page_height())
    &&& p.position@ == compute_position(w, h, o.spec_page_width(), o.spec_page_height(), p.scale@)
    &&& p.page_width@ == o.spec_page_width()
    &&& p.page_height@ == o.spec_page_height()
    &&& p.dpi@ == dpi
}

/// `1 <= a <= bound_a` and `1 <= b <= bound_b` bound the product.
proof fn lemma_mul_le(a: int, b: int, bound_a: int, bound_b: int)
    by (nonlinear_arith)
    requires
        1 <= a <= bound_a,
        1 <= b <= bound_b,
    ensures
        1 <= a * b <= bound_a * bound_b,
{
}

/// For pixel dimensions that fit in a `u32` and a resolution with both
/// parts between 1 and `MAX_DPI_PART`, every product the planner takes
/// fits in an `i128`.
proof fn lemma_plan_in_range(w_px: int, h_px: int, dpi: RatV)
    requires
        1 <= w_px <= 0xffff_ffff,
        1 <= h_px <= 0xffff_ffff,
        1 <= dpi.num <= MAX_DPI_PART,
        1 <= dpi.den <= MAX_DPI_PART,
    ensures
        units_in_range(w_px, dpi),
        units_in_range(h_px, dpi),
        orientation_in_range(px_to_units_v(w_px, dpi), px_to_units_v(h_px, dpi)),
        scale_in_range(
            px_to_units_v(w_px, dpi),
            px_to_units_v(h_px, dpi),
            select_orientation(px_to_units_v(w_px, dpi), px_to_units_v(h_px, dpi)).spec_page_width(),
            select_orientation(px_to_units_v(w_px, dpi), px_to_units_v(h_px, dpi)).spec_page_height(),
        ),
        axis_position_in_range(
            px_to_units_v(w_px, dpi),
            select_orientation(px_to_units_v(w_px, dpi), px_to_units_v(h_px, dpi)).spec_page_width(),
            compute_scale(
                px_to_units_v(w_px, dpi),
                px_to_units_v(h_px, dpi),
                select_orientation(px_to_units_v(w_px, dpi), px_to_units_v(h_px, dpi)).spec_page_width(),
                select_orientation(px_to_units_v(w_px, dpi), px_to_units_v(h_px, dpi)).spec_page_height(),
            ),
        ),
        axis_position_in_range(
            px_to_units_v(h_px, dpi),
            select_orientation(px_to_units_v(w_px, dpi), px_to_units_v(h_px, dpi)).spec_page_height(),
            compute_scale(
                px_to_units_v(w_px, dpi),
                px_to_units_v(h_px, dpi),
                select_orientation(px_to_units_v(w_px, dpi), px_to_units_v(h_px, dpi)).spec_page_width(),
                select_orientation(px_to_units_v(w_px, dpi), px_to_units_v(h_px, dpi)).spec_page_height(),
            ),
        ),
{
    // Literal bounds along the chain, so that every product of two bounds
    // folds to a numeral: 309237645240 is 0xffff_ffff * 72, and each later
    // bound is the product of the two bounds before it.
    let max_px72: int = 309_237_645_240;
    let max_num: int = 39_273_180_945_480_000_000_000;
    let max_den: int = 360_000_000_000;
    let max_ratio_num: int = 106_920_000_000_000;
    let max_placed_num: int = 4_199_088_506_690_721_600_000_000_000_000_000_000;
    let max_placed_den: int = 14_138_345_140_372_800_000_000_000_000_000_000;

    let w = px_to_units_v(w_px, dpi);
    let h = px_to_units_v(h_px, dpi);

    assert(1 <= w_px * 72 <= max_px72 && 1 <= h_px * 72 <= max_px72);
    lemma_mul_le(w_px * 72, dpi.den, max_px72, MAX_DPI_PART as int);
    lemma_mul_le(h_px * 72, dpi.den, max_px72, MAX_DPI_PART as int);
    assert(1 <= w.num <= max_num && 1 <= w.den <= max_den);
    assert(1 <= h.num <= max_num && 1 <= h.den <= max_den);

    lemma_mul_le(w.num, h.den, max_num, max_den);
    lemma_mul_le(h.num, w.den, max_num, max_den);
    lemma_mul_le(w.den, h.den, max_den, max_den);
    assert(orientation_in_range(w, h));

    let o = select_orientation(w, h);
    let pw = o.spec_page_width();
    let ph = o.spec_page_height();
    assert(pw.den == 1 && 210 <= pw.num <= 297 && ph.den == 1 && 210 <= ph.num <= 297);

    lemma_mul_le(pw.num, w.den, 297, max_den);
    lemma_mul_le(ph.num, h.den, 297, max_den);
    let width_ratio = ratv_div(pw, w);
    let height_ratio = ratv_div(ph, h);
    assert(1 <= width_ratio.num <= max_ratio_num && 1 <= width_ratio.den <= max_num);
    assert(1 <= height_ratio.num <= max_ratio_num && 1 <= height_ratio.den <= max_num);
    lemma_mul_le(width_ratio.num, height_ratio.den, max_ratio_num, max_num);
    lemma_mul_le(height_ratio.num, width_ratio.den, max_ratio_num, max_num);
    assert(scale_in_range(w, h, pw, ph));

    let s = compute_scale(w, h, pw, ph);
    assert(1 <= s.num <= max_ratio_num && 1 <= s.den <= max_num);

    lemma_mul_le(w.num, s.num, max_num, max_ratio_num);
    lemma_mul_le(w.den, s.den, max_den, max_num);
    assert(1 <= ratv_mul(w, s).num <= max_placed_num);
    assert(1 <= ratv_mul(w, s).den <= max_placed_den);
    lemma_mul_le(pw.num, ratv_mul(w, s).den, 297, max_placed_den);
    assert(axis_position_in_range(w, pw, s));

    lemma_mul_le(h.num, s.num, max_num, max_ratio_num);
    lemma_mul_le(h.den, s.den, max_den, max_num);
    assert(1 <= ratv_mul(h, s).num <= max_placed_num);
    assert(1 <= ratv_mul(h, s).den <= max_placed_den);
    lemma_mul_le(ph.num, ratv_mul(h, s).den, 297, max_placed_den);
    assert(axis_position_in_range(h, ph, s));
}

impl ImageParameter {
    /// Plans the layout for one image of `width_px` by `height_px` pixels
    /// at resolution `dpi`: converts both pixel lengths into page units,
    /// selects the orientation, computes the uniform scale and the
    /// centering offset, and packages them with the chosen page size and
    /// the resolution. Rejects a zero pixel dimension and a zero or
    /// negative resolution, each with its own error.
    pub fn new(width_px: u32, height_px: u32, dpi: Rat) -> (r: Result<ImageParameter, LayoutError>)
        requires
            dpi.wf(),
            dpi@.num <= MAX_DPI_PART,
            dpi@.den <= MAX_DPI_PART,
        ensures
            r is Ok <==> (width_px > 0 && height_px > 0 && dpi@.num > 0),
            r matches Ok(p) ==> plan_matches(p, width_px as int, height_px as int, dpi@),
            r matches Ok(p) ==> p.scale.wf() && p.position.wf() && p.page_width.wf()
                && p.page_height.wf() && p.dpi.wf(),
            r matches Err(e) ==> e == (if width_px == 0 || height_px == 0 {
                LayoutError::InvalidDimension
            } else {
                LayoutError::InvalidResolution
            }),
    {
        if width_px == 0 || height_px == 0 {
            return Err(LayoutError::InvalidDimension);
        }
        if !dpi.is_positive() {
            return Err(LayoutError::InvalidResolution);
        }
        proof {
            lemma_plan_in_range(width_px as int, height_px as int, dpi@);
        }
        let width = pixels_to_page_units(width_px, &dpi);
        let height = pixels_to_page_units(height_px, &dpi);
        let scale_calculator = ScaleCalculator { width, height };
        let orientation = scale_calculator.get_orientation();
        let scale = scale_calculator.get_scale(&orientation);
        let position = scale_calculator.get_position(&orientation, &scale);
        let page_width = orientation.page_width();
        let page_height = orientation.page_height();
        Ok(ImageParameter { scale, position, page_width, page_height, dpi })
    }
}

/// A planned layout keeps its image on its page: neither offset is
/// negative and, on each axis, the offset plus the placed image length
/// does not pass the page's far edge.
pub proof fn lemma_plan_contains(p: ImageParameter, w_px: int, h_px: int, dpi: RatV)
    requires
        plan_matches(p, w_px, h_px, dpi),
        w_px >= 1,
        h_px >= 1,
        dpi.wf(),
        dpi.num > 0,
    ensures
        ratv_le(ratv_int(0), p.position@.x),
        ratv_le(ratv_int(0), p.position@.y),
        ratv_le(
            ratv_add(p.position@.x, ratv_mul(px_to_units_v(w_px, dpi), p.scale@)),
            p.page_width@,
        ),
        ratv_le(
            ratv_add(p.position@.y, ratv_mul(px_to_units_v(h_px, dpi), p.scale@)),
            p.page_height@,
        ),
{
    let w = px_to_units_v(w_px, dpi);
    let h = px_to_units_v(h_px, dpi);
    assert(w.num > 0 && w.den > 0 && h.num > 0 && h.den > 0) by (nonlinear_arith)
        requires
            w_px >= 1,
            h_px >= 1,
            dpi.num > 0,
            dpi.den > 0,
            w.num == ((w_px * 72) * dpi.den) * 127,
            w.den == (1 * dpi.num) * 360,
            h.num == ((h_px * 72) * dpi.den) * 127,
            h.den == (1 * dpi.num) * 360,
    ;
    let o = select_orientation(w, h);
    crate::geometry::lemma_position_contains(
        w,
        h,
        o.spec_page_width(),
        o.spec_page_height(),
        p.scale@,
    );
}

/// Planning is deterministic and stateless: two plans that both match the
/// model for the same inputs are identical.
pub proof fn lemma_plan_deterministic(
    a: ImageParameter,
    b: ImageParameter,
    w_px: int,
    h_px: int,
    dpi: RatV,
)
    requires
        plan_matches(a, w_px, h_px, dpi),
        plan_matches(b, w_px, h_px, dpi),
    ensures
        a == b,
{
}

} // verus!

