//! Orientation selection, uniform scaling and centering.
//!
//! Given an image's physical width and height, `ScaleCalculator` picks the
//! page orientation, computes the largest uniform scale at which the image
//! still fits on the page, and centers the scaled image. All three steps
//! are exact rational arithmetic, and the laws at the end of this module
//! prove that the scaled image fits the page, touches at least one page
//! edge, and stays inside the page once centered.

use vstd::prelude::*;

use crate::rat::Rat;
use crate::rat::RatV;
use crate::rat::in_i128;
use crate::rat::ratv_add;
use crate::rat::ratv_div;
use crate::rat::ratv_eq;
use crate::rat::ratv_half;
use crate::rat::ratv_int;
use crate::rat::ratv_le;
use crate::rat::ratv_lt;
use crate::rat::ratv_mul;
use crate::rat::ratv_sub;

verus! {

/// The chosen page: a landscape or a portrait page, each carrying its own
/// page width and height in page units.
#[derive(Debug, Clone, Copy, PartialEq, Eq, Structural)]
pub enum Orientation {
    Landscape { width: Rat, height: Rat },
    Portrait { width: Rat, height: Rat },
}

/// The canonical landscape page: 297 by 210 page units.
pub open spec fn landscape_page() -> Orientation {
    Orientation::Landscape {
        width: Rat { num: 297, den: 1 },
        height: Rat { num: 210, den: 1 },
    }
}

/// The canonical portrait page: 210 by 297 page units.
pub open spec fn portrait_page() -> Orientation {
    Orientation::Portrait {
        width: Rat { num: 210, den: 1 },
        height: Rat { num: 297, den: 1 },
    }
}

/// The orientation chosen for an image of physical size `w` by `h`:
/// the landscape page when the image is strictly wider than tall,
/// else the portrait page (so a square image gets the portrait page).
pub open spec fn select_orientation(w: RatV, h: RatV) -> Orientation {
    if ratv_lt(h, w) {
        landscape_page()
    } else {
        portrait_page()
    }
}

impl Orientation {
    /// The width of the carried page.
    pub open spec fn spec_page_width(self) -> RatV {
        match self {
            Orientation::Landscape { width, height: _ } => width@,
            Orientation::Portrait { width, height: _ } => width@,
        }
    }

    /// The height of the carried page.
    pub open spec fn spec_page_height(self) -> RatV {
        match self {
            Orientation::Landscape { width: _, height } => height@,
            Orientation::Portrait { width: _, height } => height@,
        }
    }

    /// Both page dimensions are well-formed, strictly positive rationals.
    pub open spec fn wf(self) -> bool {
        &&& self.spec_page_width().wf()
        &&& self.spec_page_width().num > 0
        &&& self.spec_page_height().wf()
        &&& self.spec_page_height().num > 0
    }

    /// The width of the carried page.
    pub fn page_width(&self) -> (r: Rat)
        ensures
            r@ == self.spec_page_width(),
    {
        match self {
            Orientation::Landscape { width, height: _ } => *width,
            Orientation::Portrait { width, height: _ } => *width,
        }
    }

    /// The height of the carried page.
    pub fn page_height(&self) -> (r: Rat)
        ensures
            r@ == self.spec_page_height(),
    {
        match self {
            Orientation::Landscape { width: _, height } => *height,
            Orientation::Portrait { width: _, height } => *height,
        }
    }
}

/// Mathematical model of a position: the offset of the scaled image's
/// origin from the page origin, one rational per axis.
pub struct PositionV {
    pub x: RatV,
    pub y: RatV,
}

/// Offset of the scaled image's origin from the page origin, in page units.
#[derive(Debug, Clone, Copy, PartialEq, Eq, Structural)]
pub struct Position {
    pub x: Rat,
    pub y: Rat,
}

impl View for Position {
    type V = PositionV;

    open spec fn view(&self) -> PositionV {
        PositionV { x: self.x@, y: self.y@ }
    }
}

impl Position {
    /// Both coordinates are well formed.
    pub open spec fn wf(&self) -> bool {
        self.x.wf() && self.y.wf()
    }

    /// Whether two positions are equal as pairs of rational numbers, even
    /// when their coordinates are written with different denominators.
    pub fn same_value(&self, other: &Position) -> (r: bool)
        requires
            self.wf(),
            other.wf(),
            in_i128(self@.x.num * other@.x.den),
            in_i128(other@.x.num * self@.x.den),
            in_i128(self@.y.num * other@.y.den),
            in_i128(other@.y.num * self@.y.den),
        ensures
            r == (ratv_eq(self@.x, other@.x) && ratv_eq(self@.y, other@.y)),
    {
        self.x.same_value(&other.x) && self.y.same_value(&other.y)
    }
}

/// The uniform scale that fits an image of physical size `w` by `h` on a
/// page of size `pw` by `ph`: the smaller of the two per-axis ratios, the
/// binding constraint.
pub open spec fn compute_scale(w: RatV, h: RatV, pw: RatV, ph: RatV) -> RatV {
    let width_ratio = ratv_div(pw, w);
    let height_ratio = ratv_div(ph, h);
    if ratv_lt(width_ratio, height_ratio) {
        width_ratio
    } else {
        height_ratio
    }
}

/// The centering offset for an image of physical size `w` by `h` placed at
/// scale `s` on a page of size `pw` by `ph`: half the slack on each axis.
pub open spec fn compute_position(w: RatV, h: RatV, pw: RatV, ph: RatV, s: RatV) -> PositionV {
    PositionV {
        x: ratv_half(ratv_sub(pw, ratv_mul(w, s))),
        y: ratv_half(ratv_sub(ph, ratv_mul(h, s))),
    }
}

/// All products taken while selecting the orientation fit in an `i128`.
pub open spec fn orientation_in_range(w: RatV, h: RatV) -> bool {
    &&& in_i128(w.num * h.den)
    &&& in_i128(h.num * w.den)
    &&& in_i128(w.num * h.den - h.num * w.den)
    &&& in_i128(w.den * h.den)
}

/// All products taken while computing the scale fit in an `i128`.
pub open spec fn scale_in_range(w: RatV, h: RatV, pw: RatV, ph: RatV) -> bool {
    let width_ratio = ratv_div(pw, w);
    let height_ratio = ratv_div(ph, h);
    &&& in_i128(pw.num * w.den)
    &&& in_i128(pw.den * w.num)
    &&& in_i128(ph.num * h.den)
    &&& in_i128(ph.den * h.num)
    &&& in_i128(width_ratio.num * height_ratio.den)
    &&& in_i128(height_ratio.num * width_ratio.den)
}

/// All products taken while computing the position on one axis fit in an
/// `i128`: `side` is the image's physical length on that axis, `page` the
/// page's length on that axis.
pub open spec fn axis_position_in_range(side: RatV, page: RatV, s: RatV) -> bool {
    let placed = ratv_mul(side, s);
    &&& in_i128(side.num * s.num)
    &&& in_i128(side.den * s.den)
    &&& in_i128(page.num * placed.den)
    &&& in_i128(placed.num * page.den)
    &&& in_i128(page.num * placed.den - placed.num * page.den)
    &&& in_i128(page.den * placed.den)
    &&& in_i128(page.den * placed.den * 2)
}

/// An image's physical width and height, in page units.
#[derive(Debug, Clone, Copy, PartialEq, Eq, Structural)]
pub struct ScaleCalculator {
    pub width: Rat,
    pub height: Rat,
}

impl ScaleCalculator {
    /// Both dimensions are well formed.
    pub open spec fn wf(&self) -> bool {
        self.width.wf() && self.height.wf()
    }

    /// Picks the page orientation: the landscape page when the image is
    /// strictly wider than tall, else the portrait page, so that a square
    /// image deterministically gets the portrait page.
    pub fn get_orientation(&self) -> (o: Orientation)
        requires
            self.wf(),
            orientation_in_range(self.width@, self.height@),
        ensures
            o == select_orientation(self.width@, self.height@),
            o.wf(),
    {
        let diff = self.width.sub(&self.height);
        if diff.is_positive() {
            return Orientation::Landscape { width: Rat::new(297, 1), height: Rat::new(210, 1) };
        }
        Orientation::Portrait { width: Rat::new(210, 1), height: Rat::new(297, 1) }
    }

    /// Computes the uniform scale that fits the image on the page carried
    /// by `orientation`: the smaller of the two per-axis ratios.
    pub fn get_scale(&self, orientation: &Orientation) -> (s: Rat)
        requires
            self.wf(),
            orientation.wf(),
            self.width@.num > 0,
            self.height@.num > 0,
            scale_in_range(
                self.width@,
                self.height@,
                orientation.spec_page_width(),
                orientation.spec_page_height(),
            ),
        ensures
            s@ == compute_scale(
                self.width@,
                self.height@,
                orientation.spec_page_width(),
                orientation.spec_page_height(),
            ),
            s.wf(),
            s@.num > 0,
    {
        let width_ratio = orientation.page_width().div(&self.width);
        let height_ratio = orientation.page_height().div(&self.height);
        proof {
            assert(width_ratio@.num > 0 && height_ratio@.num > 0) by (nonlinear_arith)
                requires
                    width_ratio@.num == orientation.spec_page_width().num * self.width@.den,
                    height_ratio@.num == orientation.spec_page_height().num * self.height@.den,
                    orientation.spec_page_width().num > 0,
                    orientation.spec_page_height().num > 0,
                    self.width@.den > 0,
                    self.height@.den > 0,
            ;
        }
        if width_ratio.lt(&height_ratio) {
            return width_ratio;
        }
        height_ratio
    }

    /// Centers the image, scaled by `scale`, on the page carried by
    /// `orientation`: the offset on each axis is half the slack left on
    /// that axis.
    pub fn get_position(&self, orientation: &Orientation, scale: &Rat) -> (p: Position)
        requires
            self.wf(),
            orientation.wf(),
            scale.wf(),
            axis_position_in_range(self.width@, orientation.spec_page_width(), scale@),
            axis_position_in_range(self.height@, orientation.spec_page_height(), scale@),
        ensures
            p@ == compute_position(
                self.width@,
                self.height@,
                orientation.spec_page_width(),
                orientation.spec_page_height(),
                scale@,
            ),
            p.wf(),
    {
        let x = orientation.page_width().sub(&self.width.mul(scale)).half();
        let y = orientation.page_height().sub(&self.height.mul(scale)).half();
        Position { x, y }
    }
}

/// For every image strictly wider than tall, with both dimensions
/// positive, the landscape page of size 297 by 210 is selected.
pub proof fn lemma_select_landscape(w: RatV, h: RatV)
    requires
        w.wf(),
        h.wf(),
        ratv_lt(ratv_int(0), h),
        ratv_lt(h, w),
    ensures
        select_orientation(w, h) == landscape_page(),
        select_orientation(w, h).spec_page_width() == ratv_int(297),
        select_orientation(w, h).spec_page_height() == ratv_int(210),
{
}

/// For every image at most as wide as tall, with both dimensions
/// positive, the portrait page of size 210 by 297 is selected; in
/// particular a square image gets the portrait page.
pub proof fn lemma_select_portrait(w: RatV, h: RatV)
    requires
        w.wf(),
        h.wf(),
        ratv_lt(ratv_int(0), w),
        ratv_le(w, h),
    ensures
        select_orientation(w, h) == portrait_page(),
        select_orientation(w, h).spec_page_width() == ratv_int(210),
        select_orientation(w, h).spec_page_height() == ratv_int(297),
{
}

/// The computed scale fits the image on the page without cropping, and is
/// the largest such scale: the scaled image is no wider and no taller than
/// the page, and exactly as wide or exactly as tall as the page on at
/// least one axis.
pub proof fn lemma_scale_fits(w: RatV, h: RatV, pw: RatV, ph: RatV)
    requires
        w.wf(),
        w.num > 0,
        h.wf(),
        h.num > 0,
        pw.wf(),
        pw.num > 0,
        ph.wf(),
        ph.num > 0,
    ensures
        compute_scale(w, h, pw, ph).wf(),
        compute_scale(w, h, pw, ph).num > 0,
        ratv_le(ratv_mul(w, compute_scale(w, h, pw, ph)), pw),
        ratv_le(ratv_mul(h, compute_scale(w, h, pw, ph)), ph),
        ratv_eq(ratv_mul(w, compute_scale(w, h, pw, ph)), pw)
            || ratv_eq(ratv_mul(h, compute_scale(w, h, pw, ph)), ph),
{
    let width_ratio = ratv_div(pw, w);
    let height_ratio = ratv_div(ph, h);
    assert(width_ratio.den > 0 && height_ratio.den > 0 && width_ratio.num > 0
        && height_ratio.num > 0) by (nonlinear_arith)
        requires
            w.den > 0,
            w.num > 0,
            h.den > 0,
            h.num > 0,
            pw.den > 0,
            pw.num > 0,
            ph.den > 0,
            ph.num > 0,
            width_ratio == ratv_div(pw, w),
            height_ratio == ratv_div(ph, h),
    ;
    assert(ratv_eq(ratv_mul(w, width_ratio), pw)) by (nonlinear_arith)
        requires
            width_ratio == ratv_div(pw, w),
    ;
    assert(ratv_eq(ratv_mul(h, height_ratio), ph)) by (nonlinear_arith)
        requires
            height_ratio == ratv_div(ph, h),
    ;
    if ratv_lt(width_ratio, height_ratio) {
        assert(ratv_le(ratv_mul(h, width_ratio), ph)) by (nonlinear_arith)
            requires
                ratv_lt(width_ratio, height_ratio),
                width_ratio == ratv_div(pw, w),
                height_ratio == ratv_div(ph, h),
                w.den > 0,
                h.den > 0,
                pw.den > 0,
                ph.den > 0,
                w.num > 0,
                h.num > 0,
                pw.num > 0,
                ph.num > 0,
        ;
        assert(ratv_le(ratv_mul(w, width_ratio), pw)) by (nonlinear_arith)
            requires
                ratv_eq(ratv_mul(w, width_ratio), pw),
        ;
    } else {
        assert(ratv_le(ratv_mul(w, height_ratio), pw)) by (nonlinear_arith)
            requires
                ratv_le(height_ratio, width_ratio),
                width_ratio == ratv_div(pw, w),
                height_ratio == ratv_div(ph, h),
                w.den > 0,
                h.den > 0,
                pw.den > 0,
                ph.den > 0,
                w.num > 0,
                h.num > 0,
                pw.num > 0,
                ph.num > 0,
        ;
        assert(ratv_le(ratv_mul(h, height_ratio), ph)) by (nonlinear_arith)
            requires
                ratv_eq(ratv_mul(h, height_ratio), ph),
        ;
    }
}

/// Centering a placed length that fits on the page keeps it on the page:
/// the offset is not negative, and offset plus placed length does not
/// pass the page's far edge.
proof fn lemma_center_axis(side: RatV, page: RatV)
    requires
        side.wf(),
        page.wf(),
        ratv_le(side, page),
    ensures
        ratv_le(ratv_int(0), ratv_half(ratv_sub(page, side))),
        ratv_le(ratv_add(ratv_half(ratv_sub(page, side)), side), page),
{
    assert(ratv_le(ratv_int(0), ratv_half(ratv_sub(page, side)))) by (nonlinear_arith)
        requires
            side.den > 0,
            page.den > 0,
            ratv_le(side, page),
    ;
    assert(ratv_le(ratv_add(ratv_half(ratv_sub(page, side)), side), page)) by (nonlinear_arith)
        requires
            side.den > 0,
            page.den > 0,
            ratv_le(side, page),
    ;
}

/// An image placed at the scale computed for it and centered stays on the
/// page: both offsets are not negative, and on each axis the offset plus
/// the placed image length does not pass the page's far edge.
pub proof fn lemma_position_contains(w: RatV, h: RatV, pw: RatV, ph: RatV, s: RatV)
    requires
        w.wf(),
        w.num > 0,
        h.wf(),
        h.num > 0,
        pw.wf(),
        pw.num > 0,
        ph.wf(),
        ph.num > 0,
        s == compute_scale(w, h, pw, ph),
    ensures
        ratv_le(ratv_int(0), compute_position(w, h, pw, ph, s).x),
        ratv_le(ratv_int(0), compute_position(w, h, pw, ph, s).y),
        ratv_le(ratv_add(compute_position(w, h, pw, ph, s).x, ratv_mul(w, s)), pw),
        ratv_le(ratv_add(compute_position(w, h, pw, ph, s).y, ratv_mul(h, s)), ph),
{
    lemma_scale_fits(w, h, pw, ph);
    assert(ratv_mul(w, s).den > 0 && ratv_mul(h, s).den > 0) by (nonlinear_arith)
        requires
            w.den > 0,
            h.den > 0,
            s.den > 0,
    ;
    lemma_center_axis(ratv_mul(w, s), pw);
    lemma_center_axis(ratv_mul(h, s), ph);
}

} // verus!
