//! The timing generator: the executable CVT derivation, proved equal, field
//! by field, to the model in [`crate::model`].

use vstd::prelude::*;
use crate::arith::{lemma_mul_le, lemma_cancel_mul_le, lemma_div_rem, lemma_div_frac_le, lemma_div_bounded, lemma_div_lt};
use crate::aspect::{classify, AspectRatio};
use crate::model::{
    BlankingMode, TimingsModel, spec_generate, valid_params, resolution_ok, refresh_ok,
    v_field_rate_millihz, h_pixels_rnd, h_margin, total_active_pixels, v_lines_rnd, v_margin,
    interlace_half, v_sync_width, v_sync_width_aspect,
    normal_hpe_num, normal_hpe_den, normal_v_sync_bp, normal_idc_low, normal_h_blank,
    normal_total_pixels, normal_h_sync, normal_pixel_clock_khz, normal_v_total,
    reduced_hpe_num, reduced_hpe_den, reduced_h_blank, reduced_min_vbi, reduced_use_min,
    reduced_v_blank, reduced_tvl_num, reduced_tvl_den, reduced_v_total, reduced_total_pixels,
    reduced_pixel_clock_khz, tvl_num_spec, h_freq_centihz, v_freq_centihz,
};

verus! {

/// An exact ratio of integers, `num / den`; the scan periods are stored this
/// way so that they are exact reciprocals of the rounded frequencies. A zero
/// denominator only arises when the corresponding frequency itself rounded
/// to zero, and then denotes an unbounded period.
#[derive(Copy, Clone, Debug, PartialEq, Eq, Structural)]
pub struct Ratio {
    pub num: u64,
    pub den: u64,
}

/// Why a request was rejected.
#[derive(Copy, Clone, Debug, PartialEq, Eq, Structural)]
pub enum CvtError {
    /// The resolution is outside the accepted range: fewer than 8 horizontal
    /// pixels, no full line per field, or more than 65535 on either axis.
    InvalidResolution,
    /// The refresh rate is zero, or its field rate is above 1 kHz.
    InvalidRefreshRate,
}

/// One fully derived display timing, as the CVT formula produces it.
///
/// Geometry is in pixels and lines; the pixel clock is in kilohertz, the
/// scan frequencies in hundredths of a hertz, and the scan periods are
/// exact rational numbers of seconds, reciprocals of the rounded
/// frequencies.
#[derive(Copy, Clone, Debug, PartialEq, Eq, Structural)]
pub struct CvtTimings {
    /// The pixel clock (kHz).
    pub pixel_clock: u64,
    /// Total width to scan (pixels).
    pub h_total: u32,
    /// Active width, margins included (pixels).
    pub h_active: u32,
    /// Blanking width (pixels).
    pub h_blank: u32,
    /// Front porch width (pixels).
    pub h_front_porch: u32,
    /// Horizontal sync width (pixels).
    pub h_sync: u32,
    /// Back porch width (pixels).
    pub h_back_porch: u32,
    /// Polarity of the horizontal sync pulse; true is positive.
    pub h_sync_polarity: bool,
    /// Horizontal scan frequency (hundredths of a hertz), rounded half up.
    pub h_freq: u64,
    /// Horizontal scan period (seconds), the exact reciprocal of `h_freq`.
    pub h_period: Ratio,
    /// Total height to scan (lines).
    pub v_total: u32,
    /// Active height (lines per field).
    pub v_active: u32,
    /// Blanking height (lines).
    pub v_blank: u32,
    /// Front porch height (lines).
    pub v_front_porch: u32,
    /// Vertical sync width (lines).
    pub v_sync: u32,
    /// Back porch height (lines).
    pub v_back_porch: u32,
    /// Polarity of the vertical sync pulse; true is positive.
    pub v_sync_polarity: bool,
    /// Vertical scan frequency (hundredths of a hertz), rounded half up.
    pub v_freq: u64,
    /// Vertical scan period (seconds), the exact reciprocal of `v_freq`.
    pub v_period: Ratio,
    /// Whether the stream is interlaced.
    pub interlaced: bool,
}

impl View for CvtTimings {
    type V = TimingsModel;

    open spec fn view(&self) -> TimingsModel {
        TimingsModel {
            pixel_clock_khz: self.pixel_clock as int,
            h_total: self.h_total as int,
            h_active: self.h_active as int,
            h_blank: self.h_blank as int,
            h_front_porch: self.h_front_porch as int,
            h_sync: self.h_sync as int,
            h_back_porch: self.h_back_porch as int,
            h_sync_polarity: self.h_sync_polarity,
            h_freq_centihz: self.h_freq as int,
            h_period_num: self.h_period.num as int,
            h_period_den: self.h_period.den as int,
            v_total: self.v_total as int,
            v_active: self.v_active as int,
            v_blank: self.v_blank as int,
            v_front_porch: self.v_front_porch as int,
            v_sync: self.v_sync as int,
            v_back_porch: self.v_back_porch as int,
            v_sync_polarity: self.v_sync_polarity,
            v_freq_centihz: self.v_freq as int,
            v_period_num: self.v_period.num as int,
            v_period_den: self.v_period.den as int,
            interlaced: self.interlaced,
        }
    }
}

/// Bounds on the quantities every mode shares, under valid parameters.
proof fn lemma_common_bounds(hp: int, vp: int, rm: int, margins: bool, il: bool)
    requires
        valid_params(hp, vp, rm, il),
    ensures
        1 <= v_field_rate_millihz(rm, il) <= 1_000_000,
        8 <= h_pixels_rnd(hp) <= 65528,
        0 <= h_margin(hp, margins) <= 1184,
        8 <= total_active_pixels(hp, margins) <= 67900,
        1 <= v_lines_rnd(vp, il) <= 65535,
        0 <= v_margin(vp, il, margins) <= 1179,
{
    lemma_div_lt(hp, 8, 8191);
    lemma_div_rem(hp, 8);
    let h8 = h_pixels_rnd(hp);
    if margins {
        lemma_div_lt(h8 * 9, 4000, 147);
        lemma_div_rem(h8 * 9, 4000);
    }
    if il {
        lemma_div_rem(vp, 2);
        lemma_div_lt(vp, 2, 65535);
        vstd::arithmetic::div_mod::lemma_div_is_ordered(2, vp, 2);
    }
    let vl = v_lines_rnd(vp, il);
    if margins {
        lemma_div_lt(vl * 9, 500, 1179);
        lemma_div_rem(vl * 9, 500);
    }
}

/// Under Normal blanking the blank never exceeds the active width, and sync
/// plus back porch fit inside it, so the front porch is never negative.
proof fn lemma_normal_porch(hp: int, vp: int, rm: int, margins: bool, il: bool)
    requires
        valid_params(hp, vp, rm, il),
    ensures
        0 <= normal_h_blank(hp, vp, rm, margins, il) <= total_active_pixels(hp, margins),
        normal_h_sync(hp, vp, rm, margins, il)
            + normal_h_blank(hp, vp, rm, margins, il) / 2
            <= normal_h_blank(hp, vp, rm, margins, il),
{
    lemma_common_bounds(hp, vp, rm, margins, il);
    let tap = total_active_pixels(hp, margins);
    let tap8 = hp / 8 + 2 * ((h_pixels_rnd(hp) * 9) / 4000) * (if margins { 1int } else { 0int });
    assert(tap == 8 * tap8);
    assert(1 <= tap8) by {
        lemma_div_rem(hp, 8);
        if margins {
            lemma_div_rem(h_pixels_rnd(hp) * 9, 4000);
        }
    }
    let num = normal_hpe_num(rm, il);
    let den = normal_hpe_den(vp, rm, margins, il);
    assert(0 < num);
    assert(0 < den) by {
        let vm = v_field_rate_millihz(rm, il);
        let d2 = 2 * (v_lines_rnd(vp, il) + 2 * v_margin(vp, il, margins) + 3) + interlace_half(il);
        assert(vm * d2 >= 1) by (nonlinear_arith)
            requires
                vm >= 1,
                d2 >= 1,
        ;
    }
    let hb = normal_h_blank(hp, vp, rm, margins, il);
    let hs = normal_h_sync(hp, vp, rm, margins, il);
    assert(hs == 8 * ((tap + hb) / 100));
    if normal_idc_low(vp, rm, margins, il) {
        assert(tap == 4 * (2 * tap8));
        vstd::arithmetic::div_mod::lemma_div_multiples_vanish(2 * tap8, 4);
        assert(hb == 2 * tap8);
        assert(hb / 2 == tap8) by {
            vstd::arithmetic::div_mod::lemma_div_multiples_vanish(tap8, 2);
            assert(hb == 2 * tap8);
        }
        let q = (tap + hb) / 100;
        lemma_div_rem(tap + hb, 100);
        assert(tap + hb == 10 * tap8);
        assert(100 * q <= 10 * tap8);
        assert(10 * q <= tap8);
        assert(hs + hb / 2 <= hb);
    } else {
        let nn = 300 * den - 3 * num;
        let mm = 16 * (700 * den + 3 * num);
        assert(0 <= nn);
        assert(0 < mm);
        assert(tap * nn >= 0) by (nonlinear_arith)
            requires
                tap >= 0,
                nn >= 0,
        ;
        let q2 = (tap * nn) / mm;
        lemma_div_rem(tap * nn, mm);
        assert(hb == 16 * q2);
        assert(hb / 2 == 8 * q2) by {
            vstd::arithmetic::div_mod::lemma_div_multiples_vanish(8 * q2, 2);
            assert(hb == 2 * (8 * q2));
        }
        // The duty cycle is at least 1/4 of the line here, so the aligned
        // blank is at least the floor of tap / 64 cells.
        assert(mm <= 64 * nn);
        assert(tap * mm <= (tap * nn) * 64) by (nonlinear_arith)
            requires
                0 <= tap,
                mm <= 64 * nn,
        ;
        lemma_div_frac_le(tap, 64, tap * nn, mm);
        let f = tap / 64;
        assert(f <= q2);
        lemma_div_rem(tap, 64);
        assert(tap <= 64 * f + 63);
        assert(tap + 16 * q2 < 100 * (q2 + 1));
        lemma_div_lt(tap + 16 * q2, 100, q2);
        assert(hs <= 8 * q2);
        assert(hs + hb / 2 <= hb);
        // And it is at most 3/7 of the active width.
        assert(112 * nn <= 3 * mm);
        assert(112 * (tap * nn) <= (3 * tap) * mm) by (nonlinear_arith)
            requires
                0 <= tap,
                112 * nn <= 3 * mm,
        ;
        assert((112 * q2) * mm <= (3 * tap) * mm) by (nonlinear_arith)
            requires
                mm * q2 <= tap * nn,
                112 * (tap * nn) <= (3 * tap) * mm,
                0 < mm,
        ;
        lemma_cancel_mul_le(112 * q2, 3 * tap, mm);
        assert(hb <= tap);
    }
}

/// Bounds on every quantity of the Normal derivation, under valid
/// parameters; enough to show that nothing overflows a 64-bit word and that
/// each stored field fits a 32-bit one.
proof fn lemma_normal_bounds(hp: int, vp: int, rm: int, margins: bool, il: bool)
    requires
        valid_params(hp, vp, rm, il),
    ensures
        900_000_000 <= normal_hpe_num(rm, il) <= 2_000_000_000,
        1 <= normal_hpe_den(vp, rm, margins, il) <= 135_800_000_000,
        10 <= normal_v_sync_bp(hp, vp, rm, margins, il) <= 83_002,
        0 <= normal_h_blank(hp, vp, rm, margins, il) <= 67900,
        8 <= normal_total_pixels(hp, vp, rm, margins, il) <= 135_800,
        0 <= normal_h_sync(hp, vp, rm, margins, il) <= 10_864,
        0 <= normal_pixel_clock_khz(hp, vp, rm, margins, il) <= 20_500_000_000,
        4 <= normal_v_total(hp, vp, rm, margins, il) <= 151_000,
{
    lemma_common_bounds(hp, vp, rm, margins, il);
    lemma_normal_porch(hp, vp, rm, margins, il);
    let vm = v_field_rate_millihz(rm, il);
    let d2 = 2 * (v_lines_rnd(vp, il) + 2 * v_margin(vp, il, margins) + 3) + interlace_half(il);
    let num = normal_hpe_num(rm, il);
    let den = normal_hpe_den(vp, rm, margins, il);
    assert(8 <= d2 <= 135_793);
    assert(den <= 135_800_000_000 && den >= 1) by (nonlinear_arith)
        requires
            1 <= vm <= 1_000_000,
            8 <= d2 <= 135_793,
            den == vm * d2,
    ;
    // Sync-plus-back-porch line budget.
    lemma_div_rem(550 * den, num);
    lemma_div_bounded(550 * den, num, 83_000);
    let vsw = v_sync_width_aspect(il, vp, hp);
    assert(4 <= vsw <= 10);
    // Pixel clock.
    let tp = normal_total_pixels(hp, vp, rm, margins, il);
    lemma_mul_le(4 * tp, den, 543_200, 135_800_000_000);
    lemma_div_rem(4 * tp * den, num);
    assert(4 * tp * den == (4 * tp) * den);
    lemma_div_bounded((4 * tp) * den, num, 82_000_000);
    assert(normal_pixel_clock_khz(hp, vp, rm, margins, il) == 250 * ((4 * tp * den) / num));
    // Sync width.
    lemma_div_rem(tp, 100);
    lemma_div_bounded(tp, 100, 1358);
}

#[verifier::rlimit(100)]
fn generate_normal(h_pixels: u32, v_pixels: u32, refresh_millihz: u64, margins: bool, interlaced: bool) -> (r: CvtTimings)
    requires
        valid_params(h_pixels as int, v_pixels as int, refresh_millihz as int, interlaced),
    ensures
        r@ == spec_generate(h_pixels as int, v_pixels as int, refresh_millihz as int, BlankingMode::Normal, margins, interlaced),
{
    let ghost hp = h_pixels as int;
    let ghost vp = v_pixels as int;
    let ghost rm = refresh_millihz as int;
    proof {
        lemma_common_bounds(hp, vp, rm, margins, interlaced);
        lemma_normal_porch(hp, vp, rm, margins, interlaced);
        lemma_normal_bounds(hp, vp, rm, margins, interlaced);
    }
    let vm: u64 = if interlaced {
        2 * refresh_millihz
    } else {
        refresh_millihz
    };
    assert(vm as int == v_field_rate_millihz(rm, interlaced));
    let h8: u32 = 8 * (h_pixels / 8);
    assert(h8 as int == h_pixels_rnd(hp));
    let lm: u64 = if margins {
        8 * ((h8 as u64) * 9 / 4000)
    } else {
        0
    };
    assert(lm as int == h_margin(hp, margins));
    let tap: u64 = h8 as u64 + 2 * lm;
    assert(tap as int == total_active_pixels(hp, margins));
    let vl: u32 = if interlaced {
        v_pixels / 2
    } else {
        v_pixels
    };
    assert(vl as int == v_lines_rnd(vp, interlaced));
    let tm: u64 = if margins {
        (vl as u64) * 9 / 500
    } else {
        0
    };
    assert(tm as int == v_margin(vp, interlaced, margins));
    let j: u64 = if interlaced {
        1
    } else {
        0
    };
    let vsw: u64 = match classify(interlaced, vl, h8) {
        AspectRatio::Aspect4by3 => 4,
        AspectRatio::Aspect16by9 => 5,
        AspectRatio::Aspect16by10 => 6,
        AspectRatio::Aspect5by4 => 7,
        AspectRatio::Aspect15by9 => 7,
        _ => 10,
    };
    assert(vsw as int == v_sync_width_aspect(interlaced, vp, hp));

    let num: u64 = 2 * (1_000_000_000 - 550 * vm);
    assert(num as int == normal_hpe_num(rm, interlaced));
    let d2: u64 = 2 * ((vl as u64) + 2 * tm + 3) + j;
    assert(d2 as int == 2 * (v_lines_rnd(vp, interlaced) + 2 * v_margin(vp, interlaced, margins) + 3) + interlace_half(interlaced));
    proof {
        lemma_mul_le(vm as int, d2 as int, 1_000_000, 135_800);
    }
    let den: u64 = vm * d2;
    assert(den as int == normal_hpe_den(vp, rm, margins, interlaced));

    let vsbp0: u64 = (550 * den) / num + 1;
    let vsbp: u64 = if vsbp0 < vsw + 6 {
        vsw + 6
    } else {
        vsbp0
    };
    assert(vsbp as int == normal_v_sync_bp(hp, vp, rm, margins, interlaced));

    let idc_low: bool = 3 * num > 100 * den;
    assert(idc_low == normal_idc_low(vp, rm, margins, interlaced));
    let hb: u64 = if idc_low {
        tap / 4
    } else {
        let nn: u64 = 300 * den - 3 * num;
        let mm: u64 = 16 * (700 * den + 3 * num);
        proof {
            lemma_mul_le(tap as int, nn as int, 67_900, 40_740_000_000_000);
        }
        16 * ((tap * nn) / mm)
    };
    assert(hb as int == normal_h_blank(hp, vp, rm, margins, interlaced));
    let tp: u64 = tap + hb;
    assert(tp as int == normal_total_pixels(hp, vp, rm, margins, interlaced));
    let hs: u64 = 8 * (tp / 100);
    assert(hs as int == normal_h_sync(hp, vp, rm, margins, interlaced));
    let hbp: u64 = hb / 2;
    let hfp: u64 = hb - hs - hbp;

    let vtotal: u64 = vl as u64 + 2 * tm + vsbp + 3;
    assert(vtotal as int == normal_v_total(hp, vp, rm, margins, interlaced));
    let tnum: u64 = 2 * vtotal + j;
    assert(tnum as int == tvl_num_spec(BlankingMode::Normal, hp, vp, rm, margins, interlaced));

    proof {
        lemma_mul_le(4 * tp as int, den as int, 543_200, 135_800_000_000);
    }
    let khz: u64 = 250 * ((4 * tp * den) / num);
    assert(khz as int == normal_pixel_clock_khz(hp, vp, rm, margins, interlaced));

    let hf: u64 = (200_000 * khz + tp) / (2 * tp);
    assert(hf as int == h_freq_centihz(BlankingMode::Normal, hp, vp, rm, margins, interlaced));
    proof {
        lemma_mul_le(tnum as int, tp as int, 303_000, 135_800);
        assert(tnum as int * tp as int >= 1) by (nonlinear_arith)
            requires
                tnum as int >= 1,
                tp as int >= 1,
        ;
    }
    let vq: u64 = tnum * tp;
    let vf: u64 = (400_000 * khz + vq) / (2 * vq);
    assert(vf as int == v_freq_centihz(BlankingMode::Normal, hp, vp, rm, margins, interlaced)) by {
        assert(400_000 * (khz as int) == 200_000 * (khz as int) * 2);
        assert(2 * (vq as int) == 2 * ((tnum as int) * (tp as int)));
    }

    let r = CvtTimings {
        pixel_clock: khz,
        h_total: tp as u32,
        h_active: tap as u32,
        h_blank: hb as u32,
        h_front_porch: hfp as u32,
        h_sync: hs as u32,
        h_back_porch: hbp as u32,
        h_sync_polarity: false,
        h_freq: hf,
        h_period: Ratio { num: 100, den: hf },
        v_total: vtotal as u32,
        v_active: vl,
        v_blank: (vsbp + 3) as u32,
        v_front_porch: 3,
        v_sync: vsw as u32,
        v_back_porch: (vsbp - vsw) as u32,
        v_sync_polarity: true,
        v_freq: vf,
        v_period: Ratio { num: 100, den: vf },
        interlaced: interlaced,
    };
    proof {
        let m = spec_generate(hp, vp, rm, BlankingMode::Normal, margins, interlaced);
        assert(r@.pixel_clock_khz == m.pixel_clock_khz);
        assert(r@.h_total == m.h_total);
        assert(r@.h_active == m.h_active);
        assert(r@.h_blank == m.h_blank);
        assert(r@.h_front_porch == m.h_front_porch);
        assert(r@.h_sync == m.h_sync);
        assert(r@.h_back_porch == m.h_back_porch);
        assert(r@.h_freq_centihz == m.h_freq_centihz);
        assert(r@.v_total == m.v_total);
        assert(r@.v_active == m.v_active);
        assert(r@.v_blank == m.v_blank);
        assert(r@.v_front_porch == m.v_front_porch);
        assert(r@.v_sync == m.v_sync);
        assert(r@.v_back_porch == m.v_back_porch);
        assert(r@.v_freq_centihz == m.v_freq_centihz);
        assert(r@ == m);
    }
    r
}

/// Bounds on every quantity of the reduced-blanking derivation, under valid
/// parameters, together with the floor on the vertical blanking interval
/// that keeps both porches non-negative.
proof fn lemma_reduced_bounds(mode: BlankingMode, hp: int, vp: int, rm: int, margins: bool, il: bool)
    requires
        valid_params(hp, vp, rm, il),
        mode != BlankingMode::Normal,
    ensures
        540_000_000 <= reduced_hpe_num(rm, il) <= 1_000_000_000,
        1 <= reduced_hpe_den(vp, rm, margins, il) <= 68_000_000_000,
        13 <= reduced_min_vbi(mode, il, vp, hp) <= 19,
        reduced_min_vbi(mode, il, vp, hp)
            <= reduced_v_blank(mode, hp, vp, rm, margins, il)
            <= 58_001,
        2 <= reduced_tvl_den(mode, hp, vp, rm, margins, il) <= 2_000_000_000,
        1 <= reduced_tvl_num(mode, hp, vp, rm, margins, il) <= 200_000_000_000_000,
        reduced_tvl_num(mode, hp, vp, rm, margins, il)
            <= 130_000 * reduced_tvl_den(mode, hp, vp, rm, margins, il),
        0 <= reduced_v_total(mode, hp, vp, rm, margins, il) <= 130_000,
        0 <= reduced_pixel_clock_khz(mode, hp, vp, rm, margins, il) <= 9_000_000_000,
{
    lemma_common_bounds(hp, vp, rm, margins, il);
    let vm = v_field_rate_millihz(rm, il);
    let act = v_lines_rnd(vp, il) + 2 * v_margin(vp, il, margins);
    let num = reduced_hpe_num(rm, il);
    let den = reduced_hpe_den(vp, rm, margins, il);
    assert(1 <= act <= 67_893);
    assert(1 <= den <= 68_000_000_000) by (nonlinear_arith)
        requires
            1 <= vm <= 1_000_000,
            1 <= act <= 67_893,
            den == vm * act,
    ;
    let m = reduced_min_vbi(mode, il, vp, hp);
    assert(4 <= v_sync_width_aspect(il, vp, hp) <= 10);
    let vb = reduced_v_blank(mode, hp, vp, rm, margins, il);
    if reduced_use_min(mode, hp, vp, rm, margins, il) {
        assert(vb == m);
    } else {
        // The period-derived interval is at least the minimum here.
        lemma_div_rem(460 * den, num);
        vstd::arithmetic::div_mod::lemma_div_is_ordered((m - 1) * num, 460 * den, num);
        vstd::arithmetic::div_mod::lemma_div_multiples_vanish(m - 1, num);
        assert((num * (m - 1)) / num == m - 1);
        assert((m - 1) * num == num * (m - 1));
        lemma_div_bounded(460 * den, num, 58_000);
    }
    let tnum = reduced_tvl_num(mode, hp, vp, rm, margins, il);
    let tden = reduced_tvl_den(mode, hp, vp, rm, margins, il);
    if reduced_use_min(mode, hp, vp, rm, margins, il) {
        assert(tnum <= 130_000 * tden);
    } else {
        lemma_mul_le(num, 1 + act, 1_000_000_000, 67_894);
        assert(460 * den <= 61_998 * num);
        assert(num * (1 + act) <= 67_894 * num) by (nonlinear_arith)
            requires
                0 <= num,
                act <= 67_893,
        ;
        assert(tnum <= 130_000 * tden);
    }
    lemma_div_rem(tnum, tden);
    lemma_div_bounded(tnum, tden, 130_000);
    // Pixel clock: the quotient inherits the bound on total lines.
    let tp = reduced_total_pixels(mode, hp, margins);
    assert(8 <= tp <= 68_060);
    let a = vm * tp * tnum;
    assert(0 <= a <= 1_000_000 * 68_060 * 200_000_000_000_000) by (nonlinear_arith)
        requires
            1 <= vm <= 1_000_000,
            8 <= tp <= 68_060,
            1 <= tnum <= 200_000_000_000_000,
            a == vm * tp * tnum,
    ;
    assert(a <= 130_000 * vm * tp * tden) by (nonlinear_arith)
        requires
            a == vm * tp * tnum,
            tnum <= 130_000 * tden,
            1 <= vm,
            1 <= tp,
            1 <= tden,
    ;
    if mode == BlankingMode::ReducedV2 {
        let q = a / (1_000_000 * tden);
        lemma_div_rem(a, 1_000_000 * tden);
        assert(q * (1_000_000 * tden) <= 130_000 * vm * tp * tden) by (nonlinear_arith)
            requires
                (1_000_000 * tden) * q <= a,
                a <= 130_000 * vm * tp * tden,
        ;
        assert(q <= 9_000_000_000) by (nonlinear_arith)
            requires
                q * (1_000_000 * tden) <= 130_000 * vm * tp * tden,
                1 <= tden,
                0 <= q,
                1 <= vm <= 1_000_000,
                1 <= tp <= 68_060,
        ;
    } else {
        let q = (4 * a) / (1_000_000_000 * tden);
        lemma_div_rem(4 * a, 1_000_000_000 * tden);
        assert(q * (1_000_000_000 * tden) <= 520_000 * vm * tp * tden) by (nonlinear_arith)
            requires
                (1_000_000_000 * tden) * q <= 4 * a,
                a <= 130_000 * vm * tp * tden,
        ;
        assert(q <= 36_000_000) by (nonlinear_arith)
            requires
                q * (1_000_000_000 * tden) <= 520_000 * vm * tp * tden,
                1 <= tden,
                0 <= q,
                1 <= vm <= 1_000_000,
                1 <= tp <= 68_060,
        ;
        assert(reduced_pixel_clock_khz(mode, hp, vp, rm, margins, il) == 250 * ((4 * vm * tp * tnum) / (1_000_000_000 * tden)));
        assert(4 * a == 4 * vm * tp * tnum) by (nonlinear_arith)
            requires
                a == vm * tp * tnum,
        ;
    }
}

/// The vertical frequency of a reduced timing, in hundredths of a hertz, is
/// at most a tenth of the field rate in millihertz, and so fits far inside
/// a 64-bit word.
proof fn lemma_reduced_v_freq_bound(mode: BlankingMode, hp: int, vp: int, rm: int, margins: bool, il: bool)
    requires
        valid_params(hp, vp, rm, il),
        mode != BlankingMode::Normal,
    ensures
        0 <= v_freq_centihz(mode, hp, vp, rm, margins, il) <= 100_001,
{
    lemma_reduced_bounds(mode, hp, vp, rm, margins, il);
    let vm = v_field_rate_millihz(rm, il);
    let khz = reduced_pixel_clock_khz(mode, hp, vp, rm, margins, il);
    let tp = reduced_total_pixels(mode, hp, margins);
    let tnum = reduced_tvl_num(mode, hp, vp, rm, margins, il);
    let tden = reduced_tvl_den(mode, hp, vp, rm, margins, il);
    let a = vm * tp * tnum;
    // In both modes the clock was rounded down, so it reports at most the
    // exact product: khz * 1_000_000 * tden <= vm * tp * tnum.
    if mode == BlankingMode::ReducedV2 {
        lemma_div_rem(a, 1_000_000 * tden);
        assert(khz * (1_000_000 * tden) <= a) by (nonlinear_arith)
            requires
                khz == a / (1_000_000 * tden),
                (1_000_000 * tden) * (a / (1_000_000 * tden)) <= a,
        ;
    } else {
        let q = (4 * a) / (1_000_000_000 * tden);
        lemma_div_rem(4 * a, 1_000_000_000 * tden);
        assert(khz == 250 * q) by {
            assert(4 * a == 4 * vm * tp * tnum) by (nonlinear_arith)
                requires
                    a == vm * tp * tnum,
            ;
        }
        assert(khz * (1_000_000 * tden) <= a) by (nonlinear_arith)
            requires
                khz == 250 * q,
                (1_000_000_000 * tden) * q <= 4 * a,
                0 <= tden,
        ;
    }
    let qq = tnum * tp;
    assert(qq >= 1) by (nonlinear_arith)
        requires
            1 <= tnum,
            1 <= tp,
            qq == tnum * tp,
    ;
    let vfn = 200_000 * khz * tden + qq;
    // Five times the numerator is at most (vm + 5) times the denominator's
    // half, so the rounded frequency is at most (vm + 5) / 10.
    assert(5 * vfn <= qq * (vm + 5)) by (nonlinear_arith)
        requires
            khz * (1_000_000 * tden) <= vm * tp * tnum,
            vfn == 200_000 * khz * tden + qq,
            qq == tnum * tp,
            0 <= khz,
            0 <= tden,
            0 <= vm,
            0 <= tnum,
            0 <= tp,
    ;
    let vf = v_freq_centihz(mode, hp, vp, rm, margins, il);
    assert(vf == vfn / (2 * qq));
    lemma_div_rem(vfn, 2 * qq);
    assert(10 * vf <= vm + 5) by (nonlinear_arith)
        requires
            (2 * qq) * vf <= vfn,
            5 * vfn <= qq * (vm + 5),
            1 <= qq,
            0 <= vf,
    ;
}

#[verifier::rlimit(100)]
fn generate_reduced(mode: BlankingMode, h_pixels: u32, v_pixels: u32, refresh_millihz: u64, margins: bool, interlaced: bool) -> (r: CvtTimings)
    requires
        valid_params(h_pixels as int, v_pixels as int, refresh_millihz as int, interlaced),
        mode != BlankingMode::Normal,
    ensures
        r@ == spec_generate(h_pixels as int, v_pixels as int, refresh_millihz as int, mode, margins, interlaced),
{
    let ghost hp = h_pixels as int;
    let ghost vp = v_pixels as int;
    let ghost rm = refresh_millihz as int;
    proof {
        lemma_common_bounds(hp, vp, rm, margins, interlaced);
        lemma_reduced_bounds(mode, hp, vp, rm, margins, interlaced);
        lemma_reduced_v_freq_bound(mode, hp, vp, rm, margins, interlaced);
    }
    let is_v2: bool = match mode {
        BlankingMode::ReducedV2 => true,
        _ => false,
    };
    let vm: u64 = if interlaced {
        2 * refresh_millihz
    } else {
        refresh_millihz
    };
    assert(vm as int == v_field_rate_millihz(rm, interlaced));
    let h8: u32 = 8 * (h_pixels / 8);
    assert(h8 as int == h_pixels_rnd(hp));
    let lm: u64 = if margins {
        8 * ((h8 as u64) * 9 / 4000)
    } else {
        0
    };
    assert(lm as int == h_margin(hp, margins));
    let tap: u64 = h8 as u64 + 2 * lm;
    assert(tap as int == total_active_pixels(hp, margins));
    let vl: u32 = if interlaced {
        v_pixels / 2
    } else {
        v_pixels
    };
    assert(vl as int == v_lines_rnd(vp, interlaced));
    let tm: u64 = if margins {
        (vl as u64) * 9 / 500
    } else {
        0
    };
    assert(tm as int == v_margin(vp, interlaced, margins));
    let j: u64 = if interlaced {
        1
    } else {
        0
    };
    let vsw: u64 = if is_v2 {
        8
    } else {
        match classify(interlaced, vl, h8) {
            AspectRatio::Aspect4by3 => 4,
            AspectRatio::Aspect16by9 => 5,
            AspectRatio::Aspect16by10 => 6,
            AspectRatio::Aspect5by4 => 7,
            AspectRatio::Aspect15by9 => 7,
            _ => 10,
        }
    };
    assert(vsw as int == v_sync_width(mode, interlaced, vp, hp));

    let num: u64 = 1_000_000_000 - 460 * vm;
    assert(num as int == reduced_hpe_num(rm, interlaced));
    let act: u64 = vl as u64 + 2 * tm;
    assert(act as int == v_lines_rnd(vp, interlaced) + 2 * v_margin(vp, interlaced, margins));
    proof {
        lemma_mul_le(vm as int, act as int, 1_000_000, 67_893);
    }
    let den: u64 = vm * act;
    assert(den as int == reduced_hpe_den(vp, rm, margins, interlaced));

    let hbv: u64 = if is_v2 {
        80
    } else {
        160
    };
    assert(hbv as int == reduced_h_blank(mode));
    let m: u64 = if is_v2 {
        15
    } else {
        vsw + 9
    };
    assert(m as int == reduced_min_vbi(mode, interlaced, vp, hp));
    proof {
        lemma_mul_le(m as int - 1, num as int, 18, 1_000_000_000);
    }
    let use_min: bool = 460 * den < (m - 1) * num;
    assert(use_min == reduced_use_min(mode, hp, vp, rm, margins, interlaced));
    let vblank: u64 = if use_min {
        m
    } else {
        (460 * den) / num + 1
    };
    assert(vblank as int == reduced_v_blank(mode, hp, vp, rm, margins, interlaced));

    let tnum: u64;
    let tden: u64;
    if use_min {
        tnum = 2 * (m + act) + j;
        tden = 2;
    } else {
        proof {
            lemma_mul_le(num as int, 1 + act as int, 1_000_000_000, 67_894);
        }
        tnum = 2 * (460 * den + num * (1 + act)) + j * num;
        tden = 2 * num;
    }
    assert(tnum as int == reduced_tvl_num(mode, hp, vp, rm, margins, interlaced));
    assert(tden as int == reduced_tvl_den(mode, hp, vp, rm, margins, interlaced));
    let vtotal: u64 = tnum / tden;
    assert(vtotal as int == reduced_v_total(mode, hp, vp, rm, margins, interlaced));

    let tp: u64 = tap + hbv;
    assert(tp as int == reduced_total_pixels(mode, hp, margins));

    let khz: u64;
    if is_v2 {
        proof {
            lemma_mul_le(vm as int, tp as int, 1_000_000, 68_060);
            lemma_mul_le(vm as int * tp as int, tnum as int, 68_060_000_000, 200_000_000_000_000);
        }
        let a: u128 = (vm as u128) * (tp as u128) * (tnum as u128);
        let b: u128 = 1_000_000u128 * (tden as u128);
        khz = (a / b) as u64;
    } else {
        proof {
            lemma_mul_le(4 * vm as int, tp as int, 4_000_000, 68_060);
            lemma_mul_le(4 * vm as int * tp as int, tnum as int, 272_240_000_000, 200_000_000_000_000);
        }
        let a: u128 = 4u128 * (vm as u128) * (tp as u128) * (tnum as u128);
        let b: u128 = 1_000_000_000u128 * (tden as u128);
        khz = (250u128 * (a / b)) as u64;
    }
    assert(khz as int == reduced_pixel_clock_khz(mode, hp, vp, rm, margins, interlaced));

    let hf: u64 = (200_000 * khz + tp) / (2 * tp);
    assert(hf as int == h_freq_centihz(mode, hp, vp, rm, margins, interlaced));
    proof {
        lemma_mul_le(tnum as int, tp as int, 200_000_000_000_000, 68_060);
        assert(tnum as int * tp as int >= 1) by (nonlinear_arith)
            requires
                tnum as int >= 1,
                tp as int >= 1,
        ;
        lemma_mul_le(200_000 * khz as int, tden as int, 1_800_000_000_000_000, 2_000_000_000);
    }
    let qq: u128 = (tnum as u128) * (tp as u128);
    let vfn: u128 = 200_000u128 * (khz as u128) * (tden as u128) + qq;
    let vf: u64 = (vfn / (2 * qq)) as u64;
    assert(vf as int == v_freq_centihz(mode, hp, vp, rm, margins, interlaced));

    let hs: u64 = 32;
    let hbp: u64 = if is_v2 {
        40
    } else {
        80
    };
    let hfp: u64 = hbv - hs - hbp;
    let vfp: u64 = if is_v2 {
        vblank - 14
    } else {
        3
    };
    let vbp: u64 = if is_v2 {
        6
    } else {
        vblank - 3 - vsw
    };

    let r = CvtTimings {
        pixel_clock: khz,
        h_total: tp as u32,
        h_active: tap as u32,
        h_blank: hbv as u32,
        h_front_porch: hfp as u32,
        h_sync: hs as u32,
        h_back_porch: hbp as u32,
        h_sync_polarity: true,
        h_freq: hf,
        h_period: Ratio { num: 100, den: hf },
        v_total: vtotal as u32,
        v_active: vl,
        v_blank: vblank as u32,
        v_front_porch: vfp as u32,
        v_sync: vsw as u32,
        v_back_porch: vbp as u32,
        v_sync_polarity: false,
        v_freq: vf,
        v_period: Ratio { num: 100, den: vf },
        interlaced: interlaced,
    };
    proof {
        let md = spec_generate(hp, vp, rm, mode, margins, interlaced);
        assert(r@.pixel_clock_khz == md.pixel_clock_khz);
        assert(r@.h_total == md.h_total);
        assert(r@.h_active == md.h_active);
        assert(r@.h_blank == md.h_blank);
        assert(r@.h_front_porch == md.h_front_porch);
        assert(r@.h_sync == md.h_sync);
        assert(r@.h_back_porch == md.h_back_porch);
        assert(r@.h_freq_centihz == md.h_freq_centihz);
        assert(r@.v_total == md.v_total);
        assert(r@.v_active == md.v_active);
        assert(r@.v_blank == md.v_blank);
        assert(r@.v_front_porch == md.v_front_porch);
        assert(r@.v_sync == md.v_sync);
        assert(r@.v_back_porch == md.v_back_porch);
        assert(r@.v_freq_centihz == md.v_freq_centihz);
        assert(r@ == md);
    }
    r
}

impl CvtTimings {
    /// Generates the CVT timing for the request. The refresh rate is in
    /// millihertz (60 Hz is 60000). The request must satisfy
    /// [`valid_params`]: resolution within 8..=65535 by 1..=65535 (two lines
    /// when interlaced, so a field has at least one), and a positive refresh
    /// whose field rate is at most 1 kHz. [`Self::try_generate`] checks the
    /// same bounds at run time instead.
    pub fn generate(h_pixels: u32, v_pixels: u32, refresh_millihz: u64, blanking_mode: BlankingMode, margins: bool, interlaced: bool) -> (r: CvtTimings)
        requires
            valid_params(h_pixels as int, v_pixels as int, refresh_millihz as int, interlaced),
        ensures
            r@ == spec_generate(h_pixels as int, v_pixels as int, refresh_millihz as int, blanking_mode, margins, interlaced),
    {
        match blanking_mode {
            BlankingMode::Normal => generate_normal(h_pixels, v_pixels, refresh_millihz, margins, interlaced),
            BlankingMode::Reduced => generate_reduced(BlankingMode::Reduced, h_pixels, v_pixels, refresh_millihz, margins, interlaced),
            BlankingMode::ReducedV2 => generate_reduced(BlankingMode::ReducedV2, h_pixels, v_pixels, refresh_millihz, margins, interlaced),
        }
    }

    /// Generates the CVT timing for the request, rejecting out-of-range
    /// input instead of assuming it: resolution bounds are checked first,
    /// then the refresh rate.
    pub fn try_generate(h_pixels: u32, v_pixels: u32, refresh_millihz: u64, blanking_mode: BlankingMode, margins: bool, interlaced: bool) -> (r: Result<CvtTimings, CvtError>)
        ensures
            r is Ok <==> valid_params(h_pixels as int, v_pixels as int, refresh_millihz as int, interlaced),
            (r matches Ok(t) ==> t@ == spec_generate(h_pixels as int, v_pixels as int, refresh_millihz as int, blanking_mode, margins, interlaced)),
            !resolution_ok(h_pixels as int, v_pixels as int, interlaced)
                ==> r == Result::<CvtTimings, CvtError>::Err(CvtError::InvalidResolution),
            resolution_ok(h_pixels as int, v_pixels as int, interlaced)
                && !refresh_ok(refresh_millihz as int, interlaced)
                ==> r == Result::<CvtTimings, CvtError>::Err(CvtError::InvalidRefreshRate),
    {
        if !(8 <= h_pixels && h_pixels <= 65535 && 1 <= v_pixels && v_pixels <= 65535
            && (!interlaced || 2 <= v_pixels)) {
            return Err(CvtError::InvalidResolution);
        }
        let field_limit: u64 = if interlaced {
            500_000
        } else {
            1_000_000
        };
        if !(1 <= refresh_millihz && refresh_millihz <= field_limit) {
            return Err(CvtError::InvalidRefreshRate);
        }
        Ok(CvtTimings::generate(h_pixels, v_pixels, refresh_millihz, blanking_mode, margins, interlaced))
    }
}

} // verus!
