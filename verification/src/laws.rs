//! The laws of the generator: properties that hold of every timing the
//! model derives, proved once and for all over [`crate::model`]. Together
//! with the generator's own contract they carry over to every executable
//! result.

use vstd::prelude::*;
use vstd::arithmetic::div_mod::{lemma_div_multiples_vanish, lemma_div_denominator, lemma_hoist_over_denominator};
use crate::arith::{lemma_div_frac_le, lemma_div_rem};
use crate::aspect::{classify_spec, effective_v_lines, ratio_matches, AspectRatio};
use crate::model::{
    BlankingMode, TimingsModel, spec_generate, valid_params,
    v_field_rate_millihz, total_active_pixels, v_lines_rnd, v_margin, interlace_half,
    normal_hpe_num, normal_hpe_den, normal_idc_low, normal_h_blank, normal_total_pixels,
    normal_pixel_clock_khz,
    reduced_hpe_num, reduced_hpe_den, reduced_min_vbi, reduced_use_min, reduced_tvl_num,
    reduced_tvl_den, reduced_total_pixels, reduced_pixel_clock_khz,
};

verus! {

/// Determinism: the derived timing is a function of the request alone, so
/// any two results of the same request are identical.
pub proof fn lemma_generate_deterministic(t1: TimingsModel, t2: TimingsModel, h_pixels: int, v_pixels: int, refresh_millihz: int, mode: BlankingMode, margins: bool, interlaced: bool)
    requires
        t1 == spec_generate(h_pixels, v_pixels, refresh_millihz, mode, margins, interlaced),
        t2 == spec_generate(h_pixels, v_pixels, refresh_millihz, mode, margins, interlaced),
    ensures
        t1 == t2,
{
}

/// Horizontal geometry: in every mode the total width is exactly active
/// plus front porch plus sync plus back porch.
pub proof fn lemma_h_geometry(h_pixels: int, v_pixels: int, refresh_millihz: int, mode: BlankingMode, margins: bool, interlaced: bool)
    requires
        valid_params(h_pixels, v_pixels, refresh_millihz, interlaced),
    ensures
        ({
            let t = spec_generate(h_pixels, v_pixels, refresh_millihz, mode, margins, interlaced);
            t.h_total == t.h_active + t.h_front_porch + t.h_sync + t.h_back_porch
        }),
{
}

/// Vertical blanking is split without remainder: in every mode the blank
/// equals front porch plus sync plus back porch.
pub proof fn lemma_v_blank_split(h_pixels: int, v_pixels: int, refresh_millihz: int, mode: BlankingMode, margins: bool, interlaced: bool)
    requires
        valid_params(h_pixels, v_pixels, refresh_millihz, interlaced),
    ensures
        ({
            let t = spec_generate(h_pixels, v_pixels, refresh_millihz, mode, margins, interlaced);
            t.v_blank == t.v_front_porch + t.v_sync + t.v_back_porch
        }),
{
}

/// Whether an interlaced reduced timing rounds its extra half line up into
/// the total: it does exactly when the fractional part of the unrounded
/// vertical blanking interval reaches half a line.
pub open spec fn reduced_half_line_carries(mode: BlankingMode, h_pixels: int, v_pixels: int, refresh_millihz: int, margins: bool, interlaced: bool) -> bool {
    &&& interlaced
    &&& !reduced_use_min(mode, h_pixels, v_pixels, refresh_millihz, margins, interlaced)
    &&& 2 * ((460 * reduced_hpe_den(v_pixels, refresh_millihz, margins, interlaced))
        % reduced_hpe_num(refresh_millihz, interlaced))
        >= reduced_hpe_num(refresh_millihz, interlaced)
}

/// Vertical geometry: the total height is exactly active plus front porch
/// plus sync plus back porch, for requests without vertical margins whose
/// half line, if any, does not round up into the total. (With margins the
/// total also carries the two margin bands, and an interlaced reduced
/// timing whose blanking-interval fraction reaches half a line rounds it up
/// into the total, so the plain sum falls one short on exactly those.)
pub proof fn lemma_v_geometry(h_pixels: int, v_pixels: int, refresh_millihz: int, mode: BlankingMode, margins: bool, interlaced: bool)
    requires
        valid_params(h_pixels, v_pixels, refresh_millihz, interlaced),
        v_margin(v_pixels, interlaced, margins) == 0,
        mode == BlankingMode::Normal
            || !reduced_half_line_carries(mode, h_pixels, v_pixels, refresh_millihz, margins, interlaced),
    ensures
        ({
            let t = spec_generate(h_pixels, v_pixels, refresh_millihz, mode, margins, interlaced);
            t.v_total == t.v_active + t.v_front_porch + t.v_sync + t.v_back_porch
        }),
{
    let vl = v_lines_rnd(v_pixels, interlaced);
    let j = interlace_half(interlaced);
    if mode == BlankingMode::Normal {
        lemma_v_blank_split(h_pixels, v_pixels, refresh_millihz, mode, margins, interlaced);
    } else {
        let m = reduced_min_vbi(mode, interlaced, v_pixels, h_pixels);
        let num = reduced_hpe_num(refresh_millihz, interlaced);
        let den = reduced_hpe_den(v_pixels, refresh_millihz, margins, interlaced);
        assert(num > 0);
        assert(den > 0) by (nonlinear_arith)
            requires
                den == v_field_rate_millihz(refresh_millihz, interlaced) * vl,
                v_field_rate_millihz(refresh_millihz, interlaced) >= 1,
                vl >= 1,
        ;
        if reduced_use_min(mode, h_pixels, v_pixels, refresh_millihz, margins, interlaced) {
            assert(reduced_tvl_num(mode, h_pixels, v_pixels, refresh_millihz, margins, interlaced) == 2 * (m + vl) + j);
            vstd::arithmetic::div_mod::lemma_div_multiples_vanish_fancy(m + vl, j, 2);
        } else {
            let q = (460 * den) / num;
            let r = (460 * den) % num;
            vstd::arithmetic::div_mod::lemma_fundamental_div_mod(460 * den, num);
            vstd::arithmetic::div_mod::lemma_mod_bound(460 * den, num);
            let tnum = reduced_tvl_num(mode, h_pixels, v_pixels, refresh_millihz, margins, interlaced);
            assert(tnum == 2 * (460 * den + num * (1 + vl)) + j * num);
            assert(2 * r + j * num < 2 * num);
            assert(tnum == (2 * num) * (q + 1 + vl) + (2 * r + j * num)) by (nonlinear_arith)
                requires
                    tnum == 2 * (460 * den + num * (1 + vl)) + j * num,
                    460 * den == num * q + r,
            ;
            vstd::arithmetic::div_mod::lemma_div_multiples_vanish_fancy(q + 1 + vl, 2 * r + j * num, 2 * num);
            assert(tnum / (2 * num) == q + 1 + vl);
        }
    }
}

/// Mode-fixed horizontal fields: Reduced blanking always uses a 32-pixel
/// sync and an 80-pixel back porch; ReducedV2 a 32-pixel sync and a
/// 40-pixel back porch.
pub proof fn lemma_reduced_fixed_fields(h_pixels: int, v_pixels: int, refresh_millihz: int, mode: BlankingMode, margins: bool, interlaced: bool)
    requires
        mode != BlankingMode::Normal,
    ensures
        ({
            let t = spec_generate(h_pixels, v_pixels, refresh_millihz, mode, margins, interlaced);
            &&& t.h_sync == 32
            &&& (mode == BlankingMode::ReducedV2 ==> t.h_back_porch == 40)
            &&& (mode == BlankingMode::Reduced ==> t.h_back_porch == 80)
        }),
{
}

/// Reciprocal law: each stored period is the exact reciprocal of the
/// stored, already rounded frequency. The frequency is in hundredths of a
/// hertz and the period in seconds, so `period == 100 / freq` says
/// `period * (freq / 100) == 1` exactly whenever the frequency is nonzero.
pub proof fn lemma_period_reciprocal(h_pixels: int, v_pixels: int, refresh_millihz: int, mode: BlankingMode, margins: bool, interlaced: bool)
    ensures
        ({
            let t = spec_generate(h_pixels, v_pixels, refresh_millihz, mode, margins, interlaced);
            &&& t.h_period_num == 100
            &&& t.h_period_den == t.h_freq_centihz
            &&& t.v_period_num == 100
            &&& t.v_period_den == t.v_freq_centihz
        }),
{
}

/// The core of the monotonicity arguments: raising the field rate raises
/// the ratio of the period denominator to the period numerator, for both
/// numerator shapes (the 550 us budget of Normal and the 460 us budget of
/// the reduced modes enter only through the constant `c`).
proof fn lemma_rate_ratio_monotone(vm1: int, vm2: int, f: int, c: int, den1: int, den2: int, num1: int, num2: int)
    requires
        0 <= vm1 <= vm2,
        0 <= f,
        0 <= c,
        den1 == vm1 * f,
        den2 == vm2 * f,
        num1 == 1_000_000_000 - c * vm1,
        num2 == 1_000_000_000 - c * vm2,
    ensures
        den1 * num2 <= den2 * num1,
        num2 <= num1,
{
    assert(den1 * num2 <= den2 * num1) by (nonlinear_arith)
        requires
            0 <= vm1 <= vm2,
            0 <= f,
            0 <= c,
            den1 == vm1 * f,
            den2 == vm2 * f,
            num1 == 1_000_000_000 - c * vm1,
            num2 == 1_000_000_000 - c * vm2,
    ;
    assert(c * vm1 <= c * vm2) by (nonlinear_arith)
        requires
            0 <= c,
            vm1 <= vm2,
    ;
}

/// Monotone clock, Normal blanking: raising the requested refresh rate at
/// fixed resolution, margins and interlacing does not lower the pixel
/// clock, as long as both rates sit on the same side of the 20% duty-cycle
/// floor. (Crossing the floor can shrink the aligned blank by one cell and
/// with it the clock, so the restriction is necessary.)
pub proof fn lemma_clock_monotone_normal(h_pixels: int, v_pixels: int, rm1: int, rm2: int, margins: bool, interlaced: bool)
    requires
        valid_params(h_pixels, v_pixels, rm1, interlaced),
        valid_params(h_pixels, v_pixels, rm2, interlaced),
        rm1 <= rm2,
        normal_idc_low(v_pixels, rm1, margins, interlaced)
            == normal_idc_low(v_pixels, rm2, margins, interlaced),
    ensures
        normal_pixel_clock_khz(h_pixels, v_pixels, rm1, margins, interlaced)
            <= normal_pixel_clock_khz(h_pixels, v_pixels, rm2, margins, interlaced),
{
    let vm1 = v_field_rate_millihz(rm1, interlaced);
    let vm2 = v_field_rate_millihz(rm2, interlaced);
    let d2 = 2 * (v_lines_rnd(v_pixels, interlaced) + 2 * v_margin(v_pixels, interlaced, margins)
        + 3) + interlace_half(interlaced);
    let num1 = normal_hpe_num(rm1, interlaced);
    let num2 = normal_hpe_num(rm2, interlaced);
    let den1 = normal_hpe_den(v_pixels, rm1, margins, interlaced);
    let den2 = normal_hpe_den(v_pixels, rm2, margins, interlaced);
    assert(den1 * num2 <= den2 * num1) by (nonlinear_arith)
        requires
            den1 == vm1 * d2,
            den2 == vm2 * d2,
            num1 == 2 * (1_000_000_000 - 550 * vm1),
            num2 == 2 * (1_000_000_000 - 550 * vm2),
            0 <= vm1 <= vm2,
            0 <= d2,
    ;
    assert(num2 <= num1);
    assert(0 < num1 && 0 < num2);
    assert(0 < den1 && 0 < den2) by (nonlinear_arith)
        requires
            den1 == vm1 * d2,
            den2 == vm2 * d2,
            1 <= vm1 <= vm2,
            1 <= d2,
    ;
    let tap = total_active_pixels(h_pixels, margins);
    assert(0 <= tap);
    let hb1 = normal_h_blank(h_pixels, v_pixels, rm1, margins, interlaced);
    let hb2 = normal_h_blank(h_pixels, v_pixels, rm2, margins, interlaced);
    if normal_idc_low(v_pixels, rm1, margins, interlaced) {
        assert(hb1 == hb2);
    } else {
        let nn1 = 300 * den1 - 3 * num1;
        let nn2 = 300 * den2 - 3 * num2;
        let mm1 = 16 * (700 * den1 + 3 * num1);
        let mm2 = 16 * (700 * den2 + 3 * num2);
        assert(0 <= nn1 && 0 <= nn2 && 0 < mm1 && 0 < mm2);
        assert(nn1 * mm2 <= nn2 * mm1) by (nonlinear_arith)
            requires
                nn1 == 300 * den1 - 3 * num1,
                nn2 == 300 * den2 - 3 * num2,
                mm1 == 16 * (700 * den1 + 3 * num1),
                mm2 == 16 * (700 * den2 + 3 * num2),
                den1 * num2 <= den2 * num1,
        ;
        assert((tap * nn1) * mm2 <= (tap * nn2) * mm1) by (nonlinear_arith)
            requires
                0 <= tap,
                nn1 * mm2 <= nn2 * mm1,
        ;
        assert(tap * nn1 >= 0) by (nonlinear_arith)
            requires
                0 <= tap,
                0 <= nn1,
        ;
        lemma_div_frac_le(tap * nn1, mm1, tap * nn2, mm2);
        assert(hb1 <= hb2);
    }
    let tp1 = normal_total_pixels(h_pixels, v_pixels, rm1, margins, interlaced);
    let tp2 = normal_total_pixels(h_pixels, v_pixels, rm2, margins, interlaced);
    assert(0 <= tp1 <= tp2) by {
        lemma_div_rem(tap, 4);
        if !normal_idc_low(v_pixels, rm1, margins, interlaced) {
            lemma_div_rem(tap * (300 * den1 - 3 * num1), 16 * (700 * den1 + 3 * num1));
        }
    }
    assert((4 * tp1 * den1) * num2 <= (4 * tp2 * den2) * num1) by (nonlinear_arith)
        requires
            0 <= tp1 <= tp2,
            den1 * num2 <= den2 * num1,
            0 < den1,
            0 < den2,
            0 < num1,
            0 < num2,
    ;
    assert(4 * tp1 * den1 >= 0) by (nonlinear_arith)
        requires
            0 <= tp1,
            0 < den1,
    ;
    lemma_div_frac_le(4 * tp1 * den1, num1, 4 * tp2 * den2, num2);
}

/// Away from the minimum-interval floor, the product that the reduced
/// pixel clock rounds, field rate times exact total lines, grows with the
/// field rate.
proof fn lemma_tvl_product_monotone(vm1: int, vm2: int, cc: int, ll: int, num1: int, num2: int, tnum1: int, tnum2: int, tden1: int, tden2: int)
    requires
        tnum1 == 920 * (vm1 * cc) + num1 * ll,
        tnum2 == 920 * (vm2 * cc) + num2 * ll,
        tden1 == 2 * num1,
        tden2 == 2 * num2,
        0 <= vm1 <= vm2,
        0 <= cc,
        0 <= ll,
        0 < num2 <= num1,
    ensures
        vm1 * tnum1 * tden2 <= vm2 * tnum2 * tden1,
{
    let u1 = vm1 * (vm1 * cc);
    let u2 = vm2 * (vm2 * cc);
    let w1 = vm1 * (num1 * ll);
    let w2 = vm2 * (num2 * ll);
    let p1 = vm1 * tnum1;
    let p2 = vm2 * tnum2;
    let x1 = vm1 * vm1 * num2;
    let x2 = vm2 * vm2 * num1;
    let y = num1 * num2;
    assert(p1 == 920 * u1 + w1) by (nonlinear_arith)
        requires
            tnum1 == 920 * (vm1 * cc) + num1 * ll,
            p1 == vm1 * tnum1,
            u1 == vm1 * (vm1 * cc),
            w1 == vm1 * (num1 * ll),
    ;
    assert(p2 == 920 * u2 + w2) by (nonlinear_arith)
        requires
            tnum2 == 920 * (vm2 * cc) + num2 * ll,
            p2 == vm2 * tnum2,
            u2 == vm2 * (vm2 * cc),
            w2 == vm2 * (num2 * ll),
    ;
    assert(x1 <= x2) by (nonlinear_arith)
        requires
            x1 == vm1 * vm1 * num2,
            x2 == vm2 * vm2 * num1,
            0 <= vm1 <= vm2,
            0 < num2 <= num1,
    ;
    assert(u1 * num2 == cc * x1) by (nonlinear_arith)
        requires
            u1 == vm1 * (vm1 * cc),
            x1 == vm1 * vm1 * num2,
    ;
    assert(u2 * num1 == cc * x2) by (nonlinear_arith)
        requires
            u2 == vm2 * (vm2 * cc),
            x2 == vm2 * vm2 * num1,
    ;
    assert(u1 * num2 <= u2 * num1) by (nonlinear_arith)
        requires
            u1 * num2 == cc * x1,
            u2 * num1 == cc * x2,
            x1 <= x2,
            0 <= cc,
    ;
    assert(w1 * num2 == ll * (vm1 * y)) by (nonlinear_arith)
        requires
            w1 == vm1 * (num1 * ll),
            y == num1 * num2,
    ;
    assert(w2 * num1 == ll * (vm2 * y)) by (nonlinear_arith)
        requires
            w2 == vm2 * (num2 * ll),
            y == num1 * num2,
    ;
    assert(vm1 * y <= vm2 * y) by (nonlinear_arith)
        requires
            y == num1 * num2,
            vm1 <= vm2,
            0 < num1,
            0 < num2,
    ;
    assert(w1 * num2 <= w2 * num1) by (nonlinear_arith)
        requires
            w1 * num2 == ll * (vm1 * y),
            w2 * num1 == ll * (vm2 * y),
            vm1 * y <= vm2 * y,
            0 <= ll,
    ;
    assert(p1 * tden2 == 1840 * (u1 * num2) + 2 * (w1 * num2)) by (nonlinear_arith)
        requires
            p1 == 920 * u1 + w1,
            tden2 == 2 * num2,
    ;
    assert(p2 * tden1 == 1840 * (u2 * num1) + 2 * (w2 * num1)) by (nonlinear_arith)
        requires
            p2 == 920 * u2 + w2,
            tden1 == 2 * num1,
    ;
    assert(p1 * tden2 <= p2 * tden1);
}

/// Monotone clock, reduced blanking: raising the requested refresh rate at
/// fixed resolution, margins and interlacing never lowers the pixel clock,
/// in either reduced mode and with no further condition.
pub proof fn lemma_clock_monotone_reduced(mode: BlankingMode, h_pixels: int, v_pixels: int, rm1: int, rm2: int, margins: bool, interlaced: bool)
    requires
        valid_params(h_pixels, v_pixels, rm1, interlaced),
        valid_params(h_pixels, v_pixels, rm2, interlaced),
        rm1 <= rm2,
        mode != BlankingMode::Normal,
    ensures
        reduced_pixel_clock_khz(mode, h_pixels, v_pixels, rm1, margins, interlaced)
            <= reduced_pixel_clock_khz(mode, h_pixels, v_pixels, rm2, margins, interlaced),
{
    let vm1 = v_field_rate_millihz(rm1, interlaced);
    let vm2 = v_field_rate_millihz(rm2, interlaced);
    let cc = v_lines_rnd(v_pixels, interlaced) + 2 * v_margin(v_pixels, interlaced, margins);
    let j = interlace_half(interlaced);
    let num1 = reduced_hpe_num(rm1, interlaced);
    let num2 = reduced_hpe_num(rm2, interlaced);
    let den1 = reduced_hpe_den(v_pixels, rm1, margins, interlaced);
    let den2 = reduced_hpe_den(v_pixels, rm2, margins, interlaced);
    lemma_rate_ratio_monotone(vm1, vm2, cc, 460, den1, den2, num1, num2);
    assert(0 < num1 && 0 < num2);
    assert(0 < den1 && 0 < den2) by (nonlinear_arith)
        requires
            den1 == vm1 * cc,
            den2 == vm2 * cc,
            1 <= vm1 <= vm2,
            1 <= cc,
    ;
    let m = reduced_min_vbi(mode, interlaced, v_pixels, h_pixels);
    assert(13 <= m);
    let ll = 2 + 2 * cc + j;
    let tnum1 = reduced_tvl_num(mode, h_pixels, v_pixels, rm1, margins, interlaced);
    let tnum2 = reduced_tvl_num(mode, h_pixels, v_pixels, rm2, margins, interlaced);
    let tden1 = reduced_tvl_den(mode, h_pixels, v_pixels, rm1, margins, interlaced);
    let tden2 = reduced_tvl_den(mode, h_pixels, v_pixels, rm2, margins, interlaced);
    let u1 = reduced_use_min(mode, h_pixels, v_pixels, rm1, margins, interlaced);
    let u2 = reduced_use_min(mode, h_pixels, v_pixels, rm2, margins, interlaced);
    // The exact total-line ratio, scaled by the field rate, is monotone.
    assert(vm1 * tnum1 * tden2 <= vm2 * tnum2 * tden1) by {
        if u1 && u2 {
            assert(tnum1 == tnum2);
            assert(tden1 == 2);
            assert(tden2 == 2);
            assert(vm1 * tnum1 * tden2 <= vm2 * tnum2 * tden1) by (nonlinear_arith)
                requires
                    0 <= vm1 <= vm2,
                    0 <= tnum1,
                    tnum1 == tnum2,
                    tden1 == 2,
                    tden2 == 2,
            ;
        } else if !u1 && !u2 {
            assert(tnum1 == 920 * den1 + num1 * ll) by (nonlinear_arith)
                requires
                    tnum1 == 2 * (460 * den1 + num1 * (1 + cc)) + j * num1,
                    ll == 2 + 2 * cc + j,
            ;
            assert(tnum2 == 920 * den2 + num2 * ll) by (nonlinear_arith)
                requires
                    tnum2 == 2 * (460 * den2 + num2 * (1 + cc)) + j * num2,
                    ll == 2 + 2 * cc + j,
            ;
            lemma_tvl_product_monotone(vm1, vm2, cc, ll, num1, num2, tnum1, tnum2, tden1, tden2);
        } else if u1 && !u2 {
            assert(tnum1 == 2 * (m + cc) + j);
            assert(tden1 == 2);
            assert(tnum2 == 920 * den2 + num2 * ll) by (nonlinear_arith)
                requires
                    tnum2 == 2 * (460 * den2 + num2 * (1 + cc)) + j * num2,
                    ll == 2 + 2 * cc + j,
            ;
            assert(tden2 == 2 * num2);
            // Out of the minimum branch, the period-derived interval covers
            // the minimum, which absorbs the extra (m - 1) lines.
            assert(460 * den2 >= (m - 1) * num2);
            assert(vm1 * tnum1 * tden2 <= vm2 * tnum2 * tden1) by (nonlinear_arith)
                requires
                    tnum1 == 2 * (m + cc) + j,
                    tden1 == 2,
                    tnum2 == 920 * den2 + num2 * ll,
                    tden2 == 2 * num2,
                    ll == 2 + 2 * cc + j,
                    0 <= vm1 <= vm2,
                    0 <= ll,
                    0 <= cc,
                    0 <= j,
                    13 <= m,
                    0 < num2,
                    460 * den2 >= (m - 1) * num2,
                    0 <= den2,
            ;
        } else {
            // A higher rate cannot fall back to the minimum once the lower
            // rate is past it: the period-derived interval only grows.
            assert(460 * den1 >= (m - 1) * num1);
            assert(460 * den2 < (m - 1) * num2);
            assert(false) by (nonlinear_arith)
                requires
                    den1 * num2 <= den2 * num1,
                    460 * den1 >= (m - 1) * num1,
                    460 * den2 < (m - 1) * num2,
                    0 < num1,
                    0 < num2,
                    13 <= m,
            ;
        }
    }
    assert(0 < tden1 && 0 < tden2);
    assert(0 <= tnum1);
    let tp = reduced_total_pixels(mode, h_pixels, margins);
    assert(0 < tp);
    if mode == BlankingMode::ReducedV2 {
        assert((vm1 * tp * tnum1) * (1_000_000 * tden2) <= (vm2 * tp * tnum2) * (1_000_000 * tden1)) by (nonlinear_arith)
            requires
                vm1 * tnum1 * tden2 <= vm2 * tnum2 * tden1,
                0 < tp,
        ;
        assert(vm1 * tp * tnum1 >= 0) by (nonlinear_arith)
            requires
                0 <= vm1,
                0 < tp,
                0 <= tnum1,
        ;
        assert(0 < 1_000_000 * tden1 && 0 < 1_000_000 * tden2);
        lemma_div_frac_le(vm1 * tp * tnum1, 1_000_000 * tden1, vm2 * tp * tnum2, 1_000_000 * tden2);
    } else {
        assert((4 * vm1 * tp * tnum1) * (1_000_000_000 * tden2) <= (4 * vm2 * tp * tnum2) * (1_000_000_000 * tden1)) by (nonlinear_arith)
            requires
                vm1 * tnum1 * tden2 <= vm2 * tnum2 * tden1,
                0 < tp,
        ;
        assert(4 * vm1 * tp * tnum1 >= 0) by (nonlinear_arith)
            requires
                0 <= vm1,
                0 < tp,
                0 <= tnum1,
        ;
        assert(0 < 1_000_000_000 * tden1 && 0 < 1_000_000_000 * tden2);
        lemma_div_frac_le(4 * vm1 * tp * tnum1, 1_000_000_000 * tden1, 4 * vm2 * tp * tnum2, 1_000_000_000 * tden2);
    }
}

/// Classifier exactness: a geometry whose cell-aligned width is exactly the
/// 4:3 candidate for its effective line count is classified 4:3 — the first
/// entry of the fixed order, so no later ratio can shadow it.
pub proof fn lemma_classify_four_by_three(interlaced: bool, v_lines: int, h_pixels_aligned: int)
    requires
        ratio_matches(effective_v_lines(interlaced, v_lines), h_pixels_aligned, 4, 3),
    ensures
        classify_spec(interlaced, v_lines, h_pixels_aligned) == AspectRatio::Aspect4by3,
{
}

/// And the generator then uses a 4-line vertical sync for such a geometry
/// in the modes that consult the classifier.
pub proof fn lemma_four_by_three_sync_width(mode: BlankingMode, h_pixels: int, v_pixels: int, refresh_millihz: int, margins: bool, interlaced: bool)
    requires
        mode != BlankingMode::ReducedV2,
        ratio_matches(
            effective_v_lines(interlaced, v_lines_rnd(v_pixels, interlaced)),
            8 * (h_pixels / 8),
            4,
            3,
        ),
    ensures
        spec_generate(h_pixels, v_pixels, refresh_millihz, mode, margins, interlaced).v_sync == 4,
{
}

} // verus!
