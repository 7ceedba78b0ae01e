//! Aspect-ratio geometry: scale-to-fit dimensions and the crop rectangles
//! used for blurred-background letterbox filling.
//!
//! All quantities are exact: the scale-to-fit result is the mathematical
//! real-valued scaling truncated to whole pixels (never below one), and the
//! crop rectangles come from the exact rational intermediate values, floored
//! for positions and ceiled for sizes.

use vstd::prelude::*;
use vstd::arithmetic::div_mod::lemma_fundamental_div_mod;

verus! {

/// A width/height pair in pixels.
#[derive(Clone, Copy, Debug, PartialEq, Eq, Structural)]
pub struct Dimensions {
    pub w: u32,
    pub h: u32,
}

/// A crop rectangle (x, y, w, h) in source-image pixel space.
#[derive(Clone, Copy, Debug, PartialEq, Eq, Structural)]
pub struct Coords {
    pub x: u32,
    pub y: u32,
    pub w: u32,
    pub h: u32,
}

/// The larger of two integers.
pub open spec fn larger(a: int, b: int) -> int {
    if a >= b {
        a
    } else {
        b
    }
}

/// Width of the largest box with aspect ratio `w:h` that fits in
/// `tw` x `th`, truncated to whole pixels, never below one.
pub open spec fn fit_width(w: int, h: int, tw: int, th: int) -> int {
    if tw * h <= th * w {
        larger(tw, 1)
    } else {
        larger(w * th / h, 1)
    }
}

/// Height companion of [`fit_width`].
pub open spec fn fit_height(w: int, h: int, tw: int, th: int) -> int {
    if tw * h <= th * w {
        larger(h * tw / w, 1)
    } else {
        larger(th, 1)
    }
}

/// The box with aspect ratio `iw:ih`, scaled to fit a `sw` x `sh` screen,
/// fills the screen to within less than one pixel on both axes: one axis
/// matches exactly and the real-valued leftover on the other is below one
/// pixel, so no letterbox band would be visible.
pub open spec fn fills_screen(iw: int, ih: int, sw: int, sh: int) -> bool {
    if sw * ih <= sh * iw {
        sh * iw - ih * sw < iw
    } else {
        sw * ih - iw * sh < ih
    }
}

/// If `a <= b * c` then `a / b <= c` (all nonnegative, `b` positive).
proof fn lemma_div_le(a: int, b: int, c: int)
    requires
        1 <= b,
        0 <= a,
        a <= b * c,
    ensures
        a / b <= c,
{
    lemma_fundamental_div_mod(a, b);
    let q = a / b;
    let r = a % b;
    assert(q <= c) by (nonlinear_arith)
        requires
            a == b * q + r,
            0 <= r,
            1 <= b,
            a <= b * c,
    ;
}

/// If `b * c <= a` then `c <= a / b` (all nonnegative, `b` positive).
proof fn lemma_le_div(a: int, b: int, c: int)
    requires
        1 <= b,
        0 <= a,
        b * c <= a,
    ensures
        c <= a / b,
{
    lemma_fundamental_div_mod(a, b);
    let q = a / b;
    let r = a % b;
    assert(c <= q) by (nonlinear_arith)
        requires
            a == b * q + r,
            r < b,
            1 <= b,
            b * c <= a,
    ;
}

impl Dimensions {
    /// Both axes hold at least one pixel.
    pub open spec fn wf(self) -> bool {
        self.w >= 1 && self.h >= 1
    }

    pub fn new(w: u32, h: u32) -> (d: Dimensions)
        ensures
            d.w == w,
            d.h == h,
    {
        Dimensions { w, h }
    }

    /// Absolute per-axis difference.
    pub fn diff(self, other: Dimensions) -> (r: (u32, u32))
        ensures
            r.0 == if self.w >= other.w {
                self.w - other.w
            } else {
                other.w - self.w
            },
            r.1 == if self.h >= other.h {
                self.h - other.h
            } else {
                other.h - self.h
            },
    {
        let dw = if self.w >= other.w {
            self.w - other.w
        } else {
            other.w - self.w
        };
        let dh = if self.h >= other.h {
            self.h - other.h
        } else {
            other.h - self.h
        };
        (dw, dh)
    }

    /// Resize preserving the aspect ratio: the largest dimensions that fit
    /// within `target`, each axis truncated to whole pixels and floored at
    /// one to avoid degenerate zero-size images.
    pub fn resize(self, target: Dimensions) -> (r: Dimensions)
        requires
            self.wf(),
            target.wf(),
        ensures
            r.w as int == fit_width(self.w as int, self.h as int, target.w as int, target.h as int),
            r.h as int == fit_height(
                self.w as int,
                self.h as int,
                target.w as int,
                target.h as int,
            ),
            r.wf(),
            r.w <= target.w,
            r.h <= target.h,
    {
        let sw: u64 = self.w as u64;
        let sh: u64 = self.h as u64;
        let tw: u64 = target.w as u64;
        let th: u64 = target.h as u64;
        proof {
            assert(tw * sh <= 0xffff_ffff_ffff_ffff && th * sw <= 0xffff_ffff_ffff_ffff
                && sh * tw <= 0xffff_ffff_ffff_ffff && sw * th <= 0xffff_ffff_ffff_ffff)
                by (nonlinear_arith)
                requires
                    tw <= 0xffff_ffff,
                    th <= 0xffff_ffff,
                    sw <= 0xffff_ffff,
                    sh <= 0xffff_ffff,
            ;
        }
        if tw * sh <= th * sw {
            let nh_raw: u64 = sh * tw / sw;
            proof {
                lemma_div_le((sh * tw) as int, sw as int, th as int);
            }
            let nh: u32 = if nh_raw >= 1 {
                nh_raw as u32
            } else {
                1
            };
            Dimensions { w: target.w, h: nh }
        } else {
            let nw_raw: u64 = sw * th / sh;
            proof {
                lemma_div_le((sw * th) as int, sh as int, tw as int);
            }
            let nw: u32 = if nw_raw >= 1 {
                nw_raw as u32
            } else {
                1
            };
            Dimensions { w: nw, h: target.h }
        }
    }
}

/// If `a < b * c` then `a / b < c` (all nonnegative, `b` positive).
proof fn lemma_div_lt(a: int, b: int, c: int)
    requires
        1 <= b,
        0 <= a,
        a < b * c,
    ensures
        a / b < c,
{
    lemma_fundamental_div_mod(a, b);
    let q = a / b;
    let r = a % b;
    assert(q < c) by (nonlinear_arith)
        requires
            a == b * q + r,
            0 <= r,
            1 <= b,
            a < b * c,
    ;
}

/// True when the image (`iw` x `ih`) is narrower than the screen
/// (`sw` x `sh`) in aspect, so the letterbox bands stand at the image's
/// left and right.
pub open spec fn side_bands(iw: int, ih: int, sw: int, sh: int) -> bool {
    iw * sh <= ih * sw
}

/// The two background crop rectangles as exact integers, `(x, y, w, h)`
/// each: positions floored, sizes ceiled from the exact rational geometry.
pub open spec fn crop_pair_spec(iw: int, ih: int, sw: int, sh: int) -> (
    (int, int, int, int),
    (int, int, int, int),
) {
    if side_bands(iw, ih, sw, sh) {
        let pn = larger(sh * iw, sw);
        let t = sw * ih;
        let m = larger(iw * pn, t);
        let y_top = (ih * sw - pn) / (2 * sw);
        let crop_h = (pn + sw - 1) / sw;
        if iw * t > m {
            let band_w = (iw * t - m + 2 * t - 1) / (2 * t);
            ((0, y_top, band_w, crop_h), (iw - band_w, y_top, band_w, crop_h))
        } else {
            ((0, y_top, iw, 0), (0, ih, iw, 0))
        }
    } else {
        let qn = larger(sw * ih, sh);
        let u = sh * iw;
        let m = larger(ih * qn, u);
        let x_left = (iw * sh - qn) / (2 * sh);
        let crop_w = (qn + sh - 1) / sh;
        let band_h = (ih * u - m + 2 * u - 1) / (2 * u);
        ((x_left, 0, crop_w, band_h), (x_left, ih - band_h, crop_w, band_h))
    }
}

/// Bounds on the side-band geometry of [`crop_pair_spec`]: every value fits
/// in the image, the band is proper when the strict case applies, and the
/// vertical extent of a band never leaves the image. By symmetry of the
/// formulas the same lemma, applied with axes swapped, bounds the
/// top/bottom-band case.
proof fn lemma_band_bounds(iw: int, ih: int, sw: int, sh: int)
    requires
        1 <= iw <= 0xffff_ffff,
        1 <= ih <= 0xffff_ffff,
        1 <= sw <= 0xffff_ffff,
        1 <= sh <= 0xffff_ffff,
        iw * sh <= ih * sw,
    ensures
        ({
            let pn = larger(sh * iw, sw);
            let t = sw * ih;
            let m = larger(iw * pn, t);
            let y_top = (ih * sw - pn) / (2 * sw);
            let crop_h = (pn + sw - 1) / sw;
            &&& sw <= pn <= ih * sw
            &&& t <= m <= iw * t
            &&& 0 <= y_top
            &&& 1 <= crop_h
            &&& y_top + crop_h <= ih
            &&& (iw * t > m ==> {
                let band_w = (iw * t - m + 2 * t - 1) / (2 * t);
                1 <= band_w < iw
            })
        }),
{
    let pn = larger(sh * iw, sw);
    let t = sw * ih;
    let m = larger(iw * pn, t);
    let y_top = (ih * sw - pn) / (2 * sw);
    let crop_h = (pn + sw - 1) / sw;
    assert(sw <= ih * sw && sh * iw <= ih * sw) by (nonlinear_arith)
        requires
            1 <= ih,
            1 <= sw,
            iw * sh <= ih * sw,
    ;
    assert(iw * pn <= iw * t && t <= iw * t) by (nonlinear_arith)
        requires
            1 <= iw,
            pn <= t,
            0 <= t,
    ;
    lemma_le_div(ih * sw - pn, 2 * sw, 0);
    lemma_le_div(pn + sw - 1, sw, 1);
    // The band's floored top plus its ceiled height stays within the image.
    lemma_fundamental_div_mod(pn + sw - 1, sw);
    assert(sw * crop_h <= pn + sw - 1);
    vstd::arithmetic::div_mod::lemma_div_is_ordered_by_denominator(ih * sw - pn, sw, 2 * sw);
    assert(ih * sw - pn < sw * (ih - crop_h + 1)) by (nonlinear_arith)
        requires
            sw * crop_h <= pn + sw - 1,
            1 <= sw,
    ;
    lemma_div_lt(ih * sw - pn, sw, ih - crop_h + 1);
    if iw * t > m {
        let band_w = (iw * t - m + 2 * t - 1) / (2 * t);
        lemma_le_div(iw * t - m + 2 * t - 1, 2 * t, 1);
        assert(iw * t - m + 2 * t - 1 < 2 * t * iw) by (nonlinear_arith)
            requires
                t <= m,
                1 <= iw,
                1 <= t,
        ;
        lemma_div_lt(iw * t - m + 2 * t - 1, 2 * t, iw);
    }
}

impl Dimensions {
    /// Whether fitting `self` to `screen` leaves less than one pixel of
    /// letterbox on each axis.
    pub fn fits_screen_within_pixel(self, screen: Dimensions) -> (r: bool)
        requires
            self.wf(),
            screen.wf(),
        ensures
            r == fills_screen(self.w as int, self.h as int, screen.w as int, screen.h as int),
    {
        let iw: u64 = self.w as u64;
        let ih: u64 = self.h as u64;
        let sw: u64 = screen.w as u64;
        let sh: u64 = screen.h as u64;
        proof {
            assert(sw * ih <= 0xffff_ffff_ffff_ffff && sh * iw <= 0xffff_ffff_ffff_ffff && ih * sw
                <= 0xffff_ffff_ffff_ffff && iw * sh <= 0xffff_ffff_ffff_ffff) by (nonlinear_arith)
                requires
                    iw <= 0xffff_ffff,
                    ih <= 0xffff_ffff,
                    sw <= 0xffff_ffff,
                    sh <= 0xffff_ffff,
            ;
        }
        if sw * ih <= sh * iw {
            sh * iw - ih * sw < iw
        } else {
            sw * ih - iw * sh < ih
        }
    }

    /// Calculates the two crop rectangles of the image (`self`) whose
    /// stretched, softened copies fill the letterbox space left when the
    /// image is fitted to `screen`: either a left and a right sliver, or a
    /// top and a bottom one, taken from the image's own opposite edges.
    pub fn background_crops(self, screen: Dimensions) -> (r: (Coords, Coords))
        requires
            self.wf(),
            screen.wf(),
        ensures
            ({
                let (c1, c2) = crop_pair_spec(
                    self.w as int,
                    self.h as int,
                    screen.w as int,
                    screen.h as int,
                );
                &&& r.0.x as int == c1.0
                &&& r.0.y as int == c1.1
                &&& r.0.w as int == c1.2
                &&& r.0.h as int == c1.3
                &&& r.1.x as int == c2.0
                &&& r.1.y as int == c2.1
                &&& r.1.w as int == c2.2
                &&& r.1.h as int == c2.3
            }),
            r.0.x + r.0.w <= self.w,
            r.0.y + r.0.h <= self.h,
            r.1.x + r.1.w <= self.w,
            r.1.y + r.1.h <= self.h,
    {
        let iw: u128 = self.w as u128;
        let ih: u128 = self.h as u128;
        let sw: u128 = screen.w as u128;
        let sh: u128 = screen.h as u128;
        proof {
            assert(iw * sh < 0x1_0000_0000_0000_0000 && ih * sw < 0x1_0000_0000_0000_0000
                && sh * iw < 0x1_0000_0000_0000_0000 && sw * ih < 0x1_0000_0000_0000_0000
                && sw * iw < 0x1_0000_0000_0000_0000 && sh * ih < 0x1_0000_0000_0000_0000)
                by (nonlinear_arith)
                requires
                    iw <= 0xffff_ffff,
                    ih <= 0xffff_ffff,
                    sw <= 0xffff_ffff,
                    sh <= 0xffff_ffff,
            ;
        }
        if iw * sh <= ih * sw {
            proof {
                lemma_band_bounds(iw as int, ih as int, sw as int, sh as int);
            }
            let pn: u128 = if sh * iw >= sw {
                sh * iw
            } else {
                sw
            };
            let t: u128 = sw * ih;
            proof {
                assert(iw * pn < 0x1_0000_0000_0000_0000_0000_0000
                    && iw * t < 0x1_0000_0000_0000_0000_0000_0000) by (nonlinear_arith)
                    requires
                        iw <= 0xffff_ffff,
                        0 <= pn < 0x1_0000_0000_0000_0000,
                        0 <= t < 0x1_0000_0000_0000_0000,
                ;
            }
            let m: u128 = if iw * pn >= t {
                iw * pn
            } else {
                t
            };
            let y_top: u128 = (ih * sw - pn) / (2 * sw);
            let crop_h: u128 = (pn + sw - 1) / sw;
            if iw * t > m {
                let band_w: u128 = (iw * t - m + 2 * t - 1) / (2 * t);
                (
                    Coords { x: 0, y: y_top as u32, w: band_w as u32, h: crop_h as u32 },
                    Coords {
                        x: (iw - band_w) as u32,
                        y: y_top as u32,
                        w: band_w as u32,
                        h: crop_h as u32,
                    },
                )
            } else {
                (
                    Coords { x: 0, y: y_top as u32, w: self.w, h: 0 },
                    Coords { x: 0, y: self.h, w: self.w, h: 0 },
                )
            }
        } else {
            proof {
                lemma_band_bounds(ih as int, iw as int, sh as int, sw as int);
            }
            let qn: u128 = if sw * ih >= sh {
                sw * ih
            } else {
                sh
            };
            let u: u128 = sh * iw;
            proof {
                assert(ih * qn < 0x1_0000_0000_0000_0000_0000_0000
                    && ih * u < 0x1_0000_0000_0000_0000_0000_0000) by (nonlinear_arith)
                    requires
                        ih <= 0xffff_ffff,
                        0 <= qn < 0x1_0000_0000_0000_0000,
                        0 <= u < 0x1_0000_0000_0000_0000,
                ;
            }
            let m: u128 = if ih * qn >= u {
                ih * qn
            } else {
                u
            };
            let x_left: u128 = (iw * sh - qn) / (2 * sh);
            let crop_w: u128 = (qn + sh - 1) / sh;
            let band_h: u128 = (ih * u - m + 2 * u - 1) / (2 * u);
            proof {
                if ih * u == m {
                    lemma_le_div((ih * u - m + 2 * u - 1) as int, (2 * u) as int, 0);
                    lemma_div_lt((ih * u - m + 2 * u - 1) as int, (2 * u) as int, 1);
                }
            }
            (
                Coords { x: x_left as u32, y: 0, w: crop_w as u32, h: band_h as u32 },
                Coords {
                    x: x_left as u32,
                    y: (ih - band_h) as u32,
                    w: crop_w as u32,
                    h: band_h as u32,
                },
            )
        }
    }
}

/// Scaling to fit preserves the aspect ratio within one-pixel rounding:
/// the cross products of the result and the source differ by less than one
/// source pixel on either axis, and the result fills the target on at least
/// one axis. Holds whenever neither axis is so extreme that the one-pixel
/// floor engages.
pub proof fn lemma_resize_preserves_aspect(d: Dimensions, t: Dimensions)
    requires
        d.wf(),
        t.wf(),
        d.h * t.w >= d.w,
        d.w * t.h >= d.h,
    ensures
        ({
            let rw = fit_width(d.w as int, d.h as int, t.w as int, t.h as int);
            let rh = fit_height(d.w as int, d.h as int, t.w as int, t.h as int);
            &&& rw >= 1
            &&& rh >= 1
            &&& d.h * rw - d.w * rh < d.w
            &&& d.w * rh - d.h * rw < d.h
            &&& rw == t.w || rh == t.h
        }),
{
    let sw = d.w as int;
    let sh = d.h as int;
    let tw = t.w as int;
    let th = t.h as int;
    if tw * sh <= th * sw {
        let q = sh * tw / sw;
        lemma_fundamental_div_mod(sh * tw, sw);
        lemma_le_div(sh * tw, sw, 1);
        assert(q >= 1);
        assert(sh * tw - sw * q < sw);
        assert(sw * q <= sh * tw);
        assert(fit_width(sw, sh, tw, th) == tw);
        assert(fit_height(sw, sh, tw, th) == q);
    } else {
        let q = sw * th / sh;
        lemma_fundamental_div_mod(sw * th, sh);
        lemma_le_div(sw * th, sh, 1);
        assert(q >= 1);
        assert(sw * th - sh * q < sh);
        assert(sh * q <= sw * th);
        assert(fit_width(sw, sh, tw, th) == q);
        assert(fit_height(sw, sh, tw, th) == th);
    }
}

/// Letterboxing is exclusive to one axis: a fitted image always fills the
/// target on at least one axis, so for any non-matching aspect ratio the
/// empty bands are either left/right or top/bottom, never both. Horizontal
/// leftover goes with side-band background crops and vertical leftover with
/// top/bottom ones.
pub proof fn lemma_letterbox_single_axis(d: Dimensions, t: Dimensions)
    requires
        d.wf(),
        t.wf(),
    ensures
        ({
            let fw = fit_width(d.w as int, d.h as int, t.w as int, t.h as int);
            let fh = fit_height(d.w as int, d.h as int, t.w as int, t.h as int);
            &&& fw <= t.w
            &&& fh <= t.h
            &&& fw == t.w || fh == t.h
            &&& (fw < t.w ==> fh == t.h && side_bands(d.w as int, d.h as int, t.w as int, t.h as int))
            &&& (fh < t.h ==> fw == t.w && !side_bands(
                d.w as int,
                d.h as int,
                t.w as int,
                t.h as int,
            ))
        }),
{
    let iw = d.w as int;
    let ih = d.h as int;
    let sw = t.w as int;
    let sh = t.h as int;
    if sw * ih <= sh * iw {
        lemma_div_le(ih * sw, iw, sh);
        if iw * sh <= ih * sw {
            lemma_le_div(ih * sw, iw, sh);
        }
    } else {
        lemma_div_le(iw * sh, ih, sw);
        lemma_div_lt(iw * sh, ih, sw);
    }
}

/// The two background slivers are symmetric: they have equal sizes, sit
/// flush against opposite edges of the image, and are aligned with each
/// other on the remaining axis.
pub proof fn lemma_background_crops_symmetric(d: Dimensions, t: Dimensions)
    requires
        d.wf(),
        t.wf(),
    ensures
        ({
            let (c1, c2) = crop_pair_spec(d.w as int, d.h as int, t.w as int, t.h as int);
            let vertical = side_bands(d.w as int, d.h as int, t.w as int, t.h as int);
            &&& c1.2 == c2.2
            &&& c1.3 == c2.3
            &&& (vertical ==> c1.0 == 0 && c2.0 + c2.2 == d.w && (c1.1 == c2.1 || c1.3 == 0))
            &&& (!vertical ==> c1.1 == 0 && c2.1 + c2.3 == d.h && c1.0 == c2.0)
        }),
{
}

} // verus!
