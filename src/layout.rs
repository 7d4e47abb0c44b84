//! Fitting the glyph sequence into the window and centring it.
use vstd::prelude::*;
use crate::atlas::{CHAR_HEIGHT, CHAR_WIDTH, CHARS_COUNT, TEXT_HEIGHT, TEXT_WIDTH};

verus! {

/// The user zoom is kept in thousandths: this value is a zoom of one.
pub const ZOOM_UNIT: u64 = 1000;

/// Smallest user zoom (a tenth).
pub const MIN_ZOOM: u64 = 100;

/// Largest user zoom (a hundredfold).
pub const MAX_ZOOM: u64 = 100000;

/// The fit scale as the fraction `num / den`.
#[derive(Clone, Copy, Debug, PartialEq, Eq, Structural)]
pub struct FitScale {
    pub num: u64,
    pub den: u64,
}

/// Where and how large the glyphs of one frame are drawn.
#[derive(Clone, Copy, Debug, PartialEq, Eq, Structural)]
pub struct Layout {
    pub fit: FitScale,
    pub glyph_width: u64,
    pub glyph_height: u64,
    pub pen_x: i64,
    pub pen_y: i64,
}

/// The sequence is relatively wider than the window: `TEXT_WIDTH / TEXT_HEIGHT > w / h`.
pub open spec fn fits_by_width(w: nat, h: nat) -> bool {
    TEXT_WIDTH * h > w * TEXT_HEIGHT
}

/// The fit scale: window dimension over sequence dimension along the binding axis.
pub open spec fn fit_of(w: nat, h: nat) -> FitScale {
    if fits_by_width(w, h) {
        FitScale { num: w as u64, den: TEXT_WIDTH }
    } else {
        FitScale { num: h as u64, den: TEXT_HEIGHT }
    }
}

/// `floor(cell * zoom * fit)`, the zoom being in thousandths.
pub open spec fn scaled(cell: nat, zoom: nat, fit: FitScale) -> nat {
    (cell * zoom * (fit.num as nat)) / ((ZOOM_UNIT as nat) * (fit.den as nat))
}

/// The layout of a window of `w` by `h` pixels at user zoom `zoom`.
pub open spec fn layout_of(w: nat, h: nat, zoom: nat) -> Layout {
    let fit = fit_of(w, h);
    let gw = scaled(CHAR_WIDTH as nat, zoom, fit);
    let gh = scaled(CHAR_HEIGHT as nat, zoom, fit);
    Layout {
        fit,
        glyph_width: gw as u64,
        glyph_height: gh as u64,
        pen_x: (w as int / 2 - (gw * CHARS_COUNT) as int / 2) as i64,
        pen_y: (h as int / 2 - gh as int / 2) as i64,
    }
}

/// A scaled glyph dimension at a zoom of at most `MAX_ZOOM` stays below a
/// hundred times the window dimension it is fitted to.
pub proof fn lemma_scaled_bound(cell: nat, zoom: nat, num: nat, den: nat)
    requires
        cell <= CHAR_HEIGHT,
        zoom <= MAX_ZOOM,
        num <= u32::MAX,
        den >= TEXT_HEIGHT,
    ensures
        cell * zoom * num <= 190 * 100000 * 4294967295,
        (cell * zoom * num) / ((ZOOM_UNIT * den) as nat) <= 100 * num,
{
    assert(cell * zoom <= 190 * 100000) by (nonlinear_arith)
        requires cell <= 190, zoom <= 100000;
    assert(cell * zoom * num <= 190 * 100000 * num) by (nonlinear_arith)
        requires cell * zoom <= 190 * 100000;
    assert(190 * 100000 * num <= 190 * 100000 * 4294967295) by (nonlinear_arith)
        requires num <= 4294967295;
    let d: nat = (ZOOM_UNIT * den) as nat;
    assert(d >= 190000) by (nonlinear_arith)
        requires d == 1000 * den, den >= 190;
    assert((cell * zoom * num) / d <= (190 * 100000 * num) / d) by (nonlinear_arith)
        requires cell * zoom * num <= 190 * 100000 * num, d > 0;
    assert((190 * 100000 * num) / d <= (190 * 100000 * num) / 190000) by (nonlinear_arith)
        requires d >= 190000;
    assert((190 * 100000 * num) / 190000 == 100 * num) by (nonlinear_arith);
}

/// Computes the fit scale, the glyph size and the first pen position for a
/// window of `w` by `h` pixels at user zoom `user_zoom` (in thousandths).
pub fn initial_pen(w: u32, h: u32, user_zoom: u64) -> (r: Layout)
    requires
        user_zoom <= MAX_ZOOM,
    ensures
        r == layout_of(w as nat, h as nat, user_zoom as nat),
        r.fit == fit_of(w as nat, h as nat),
        r.glyph_width as nat == scaled(CHAR_WIDTH as nat, user_zoom as nat, r.fit),
        r.glyph_height as nat == scaled(CHAR_HEIGHT as nat, user_zoom as nat, r.fit),
        r.pen_x as int == w as int / 2 - (r.glyph_width * CHARS_COUNT) as int / 2,
        r.pen_y as int == h as int / 2 - r.glyph_height as int / 2,
        r.glyph_width <= 100 * u32::MAX,
        r.glyph_height <= 100 * u32::MAX,
        r.pen_x + CHARS_COUNT * r.glyph_width <= i64::MAX,
{
    let fit = if TEXT_WIDTH * (h as u64) > (w as u64) * TEXT_HEIGHT {
        FitScale { num: w as u64, den: TEXT_WIDTH }
    } else {
        FitScale { num: h as u64, den: TEXT_HEIGHT }
    };
    proof {
        lemma_scaled_bound(CHAR_WIDTH as nat, user_zoom as nat, fit.num as nat, fit.den as nat);
        lemma_scaled_bound(CHAR_HEIGHT as nat, user_zoom as nat, fit.num as nat, fit.den as nat);
    }
    let gw = CHAR_WIDTH * user_zoom * fit.num / (ZOOM_UNIT * fit.den);
    let gh = CHAR_HEIGHT * user_zoom * fit.num / (ZOOM_UNIT * fit.den);
    let pen_x = (w / 2) as i64 - (gw * CHARS_COUNT / 2) as i64;
    let pen_y = (h / 2) as i64 - (gh / 2) as i64;
    Layout { fit, glyph_width: gw, glyph_height: gh, pen_x, pen_y }
}

/// Along the binding axis the fit scale is the window dimension over the
/// sequence dimension. A window of exactly the sequence's aspect ratio gets
/// the same scale from either axis (`w / TEXT_WIDTH == h / TEXT_HEIGHT`), a
/// relatively wider window is bound by its height (a scale below
/// `w / TEXT_WIDTH`), a relatively taller one by its width (a scale below
/// `h / TEXT_HEIGHT`), and a window of positive size gets a positive scale.
pub proof fn lemma_fit_axis(w: u32, h: u32)
    ensures
        w * TEXT_HEIGHT == h * TEXT_WIDTH ==> {
            let f = fit_of(w as nat, h as nat);
            &&& f.num * TEXT_WIDTH == w * f.den
            &&& f.num * TEXT_HEIGHT == h * f.den
        },
        w * TEXT_HEIGHT > h * TEXT_WIDTH ==> fit_of(w as nat, h as nat) == (FitScale {
            num: h as u64,
            den: TEXT_HEIGHT,
        }) && fit_of(w as nat, h as nat).num * TEXT_WIDTH < w * fit_of(w as nat, h as nat).den,
        w * TEXT_HEIGHT < h * TEXT_WIDTH ==> fit_of(w as nat, h as nat) == (FitScale {
            num: w as u64,
            den: TEXT_WIDTH,
        }) && fit_of(w as nat, h as nat).num * TEXT_HEIGHT < h * fit_of(w as nat, h as nat).den,
        w > 0 && h > 0 ==> fit_of(w as nat, h as nat).num > 0,
{
}

/// At a user zoom of one the whole sequence is inside the window: its width
/// and height do not exceed the window's, and the first pen position is not
/// left of or above the window.
pub proof fn lemma_fit_visible(w: u32, h: u32)
    ensures
        layout_of(w as nat, h as nat, ZOOM_UNIT as nat).glyph_width * CHARS_COUNT <= w,
        layout_of(w as nat, h as nat, ZOOM_UNIT as nat).glyph_height <= h,
        layout_of(w as nat, h as nat, ZOOM_UNIT as nat).pen_x >= 0,
        layout_of(w as nat, h as nat, ZOOM_UNIT as nat).pen_y >= 0,
{
    let wn = w as nat;
    let hn = h as nat;
    let f = fit_of(wn, hn);
    let gw = scaled(CHAR_WIDTH as nat, ZOOM_UNIT as nat, f);
    let gh = scaled(CHAR_HEIGHT as nat, ZOOM_UNIT as nat, f);
    if fits_by_width(wn, hn) {
        assert(gw == (150 * 1000 * wn) / (1000 * 1200));
        assert((150 * 1000 * wn) / (1000 * 1200) * 8 <= wn) by (nonlinear_arith);
        assert(gh == (190 * 1000 * wn) / (1000 * 1200));
        assert((190 * 1000 * wn) / (1000 * 1200) <= hn) by (nonlinear_arith)
            requires 1200 * hn > wn * 190;
    } else {
        assert(gw == (150 * 1000 * hn) / (1000 * 190));
        assert((150 * 1000 * hn) / (1000 * 190) * 8 <= wn) by (nonlinear_arith)
            requires 1200 * hn <= wn * 190;
        assert(gh == (190 * 1000 * hn) / (1000 * 190));
        assert((190 * 1000 * hn) / (1000 * 190) <= hn) by (nonlinear_arith);
    }
    assert(gw * CHARS_COUNT <= wn);
    assert(gh <= hn);
}

} // verus!
