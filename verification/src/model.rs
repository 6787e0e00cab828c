//! The mathematical model of the CVT derivation: every intermediate quantity
//! of the formula as an exact spec-level function of the request.
//!
//! The requested refresh rate is a count of millihertz. Durations never
//! appear directly: the estimated horizontal period, a rational number of
//! microseconds, is carried as a separate numerator and denominator, and each
//! rounding step of the standard becomes an integer floor division on them.
//! Division below is always by a positive value whenever the request
//! satisfies [`valid_params`]; the model is compared against executable
//! results only under that premise.

use vstd::prelude::*;
use crate::aspect::{classify_spec, AspectRatio};

verus! {

/// How a monitor blanks between scan lines and frames. Normal blanking works
/// on every monitor type; the two reduced variants shorten the blank time to
/// save bandwidth at the cost of CRT compatibility.
#[derive(Copy, Clone, Debug, PartialEq, Eq, Structural)]
pub enum BlankingMode {
    /// Full-length blanking intervals; compatible with CRT monitors.
    Normal,
    /// Shortened blanking, first revision: 160 blank pixels per line.
    Reduced,
    /// Shortened blanking, second revision: 80 blank pixels per line and a
    /// finer pixel-clock step.
    ReducedV2,
}

/// The field rate the formula aims at, in millihertz: interlacing halves the
/// lines of a field, so the field rate is twice the requested frame rate.
pub open spec fn v_field_rate_millihz(refresh_millihz: int, interlaced: bool) -> int {
    if interlaced {
        2 * refresh_millihz
    } else {
        refresh_millihz
    }
}

/// Requested horizontal pixels rounded down to the 8-pixel cell granularity.
pub open spec fn h_pixels_rnd(h_pixels: int) -> int {
    8 * (h_pixels / 8)
}

/// Width of one horizontal margin: 1.8% of the rounded active width, rounded
/// down to the cell granularity; zero when margins are not requested.
pub open spec fn h_margin(h_pixels: int, margins: bool) -> int {
    if margins {
        8 * ((h_pixels_rnd(h_pixels) * 9) / 4000)
    } else {
        0
    }
}

/// Active pixels per line, margins included.
pub open spec fn total_active_pixels(h_pixels: int, margins: bool) -> int {
    h_pixels_rnd(h_pixels) + 2 * h_margin(h_pixels, margins)
}

/// Requested vertical lines per field: halved and rounded down when
/// interlaced.
pub open spec fn v_lines_rnd(v_pixels: int, interlaced: bool) -> int {
    if interlaced {
        v_pixels / 2
    } else {
        v_pixels
    }
}

/// Height of one vertical margin: 1.8% of the rounded line count, rounded
/// down; zero when margins are not requested.
pub open spec fn v_margin(v_pixels: int, interlaced: bool, margins: bool) -> int {
    if margins {
        (v_lines_rnd(v_pixels, interlaced) * 9) / 500
    } else {
        0
    }
}

/// The extra half line an interlaced frame carries, counted in half-lines:
/// 1 when interlaced, else 0. Quantities that may contain the half line are
/// carried as numerators over a denominator of 2.
pub open spec fn interlace_half(interlaced: bool) -> int {
    if interlaced {
        1
    } else {
        0
    }
}

/// Vertical sync width chosen from the aspect ratio, for the modes that
/// consult the classifier (Normal and Reduced).
pub open spec fn v_sync_width_aspect(interlaced: bool, v_pixels: int, h_pixels: int) -> int {
    match classify_spec(interlaced, v_lines_rnd(v_pixels, interlaced), h_pixels_rnd(h_pixels)) {
        AspectRatio::Aspect4by3 => 4,
        AspectRatio::Aspect16by9 => 5,
        AspectRatio::Aspect16by10 => 6,
        AspectRatio::Aspect5by4 => 7,
        AspectRatio::Aspect15by9 => 7,
        _ => 10,
    }
}

/// Vertical sync width: fixed at 8 lines for ReducedV2, otherwise chosen
/// from the aspect ratio.
pub open spec fn v_sync_width(mode: BlankingMode, interlaced: bool, v_pixels: int, h_pixels: int) -> int {
    if mode == BlankingMode::ReducedV2 {
        8
    } else {
        v_sync_width_aspect(interlaced, v_pixels, h_pixels)
    }
}

// --- Normal blanking -----------------------------------------------------
//
// The estimated horizontal period is the field period minus the 550 us
// budget for vertical sync and back porch, spread over the lines of a field.
// As a rational number of microseconds it is normal_hpe_num / normal_hpe_den.

/// Numerator of the estimated horizontal period under Normal blanking, in
/// microseconds over [`normal_hpe_den`].
pub open spec fn normal_hpe_num(refresh_millihz: int, interlaced: bool) -> int {
    2 * (1_000_000_000 - 550 * v_field_rate_millihz(refresh_millihz, interlaced))
}

/// Denominator of the estimated horizontal period under Normal blanking.
pub open spec fn normal_hpe_den(v_pixels: int, refresh_millihz: int, margins: bool, interlaced: bool) -> int {
    v_field_rate_millihz(refresh_millihz, interlaced) * (2 * (v_lines_rnd(v_pixels, interlaced)
        + 2 * v_margin(v_pixels, interlaced, margins) + 3) + interlace_half(interlaced))
}

/// Lines reserved for vertical sync plus back porch under Normal blanking:
/// the 550 us budget divided by the estimated horizontal period, rounded
/// down, plus one; at least sync width plus the 6-line minimum back porch.
pub open spec fn normal_v_sync_bp(h_pixels: int, v_pixels: int, refresh_millihz: int, margins: bool, interlaced: bool) -> int {
    let lo = (550 * normal_hpe_den(v_pixels, refresh_millihz, margins, interlaced))
        / normal_hpe_num(refresh_millihz, interlaced) + 1;
    let min = v_sync_width_aspect(interlaced, v_pixels, h_pixels) + 6;
    if lo < min {
        min
    } else {
        lo
    }
}

/// Whether the ideal blanking duty cycle, 30% minus 300 ns per microsecond
/// of horizontal period, has fallen below the 20% floor.
pub open spec fn normal_idc_low(v_pixels: int, refresh_millihz: int, margins: bool, interlaced: bool) -> bool {
    3 * normal_hpe_num(refresh_millihz, interlaced)
        > 100 * normal_hpe_den(v_pixels, refresh_millihz, margins, interlaced)
}

/// Horizontal blanking width under Normal blanking: the active width scaled
/// by the duty cycle, aligned down to twice the cell granularity; at the 20%
/// floor the scale is exactly one quarter and no alignment is applied.
pub open spec fn normal_h_blank(h_pixels: int, v_pixels: int, refresh_millihz: int, margins: bool, interlaced: bool) -> int {
    let num = normal_hpe_num(refresh_millihz, interlaced);
    let den = normal_hpe_den(v_pixels, refresh_millihz, margins, interlaced);
    let tap = total_active_pixels(h_pixels, margins);
    if normal_idc_low(v_pixels, refresh_millihz, margins, interlaced) {
        tap / 4
    } else {
        16 * ((tap * (300 * den - 3 * num)) / (16 * (700 * den + 3 * num)))
    }
}

/// Total pixels per line under Normal blanking.
pub open spec fn normal_total_pixels(h_pixels: int, v_pixels: int, refresh_millihz: int, margins: bool, interlaced: bool) -> int {
    total_active_pixels(h_pixels, margins)
        + normal_h_blank(h_pixels, v_pixels, refresh_millihz, margins, interlaced)
}

/// Horizontal sync width under Normal blanking: 8% of the total pixels,
/// rounded down to the cell granularity.
pub open spec fn normal_h_sync(h_pixels: int, v_pixels: int, refresh_millihz: int, margins: bool, interlaced: bool) -> int {
    8 * (normal_total_pixels(h_pixels, v_pixels, refresh_millihz, margins, interlaced) / 100)
}

/// Pixel clock under Normal blanking, in kilohertz: the total pixels over
/// the estimated period, rounded down to the 0.25 MHz clock step.
pub open spec fn normal_pixel_clock_khz(h_pixels: int, v_pixels: int, refresh_millihz: int, margins: bool, interlaced: bool) -> int {
    250 * ((4 * normal_total_pixels(h_pixels, v_pixels, refresh_millihz, margins, interlaced)
        * normal_hpe_den(v_pixels, refresh_millihz, margins, interlaced))
        / normal_hpe_num(refresh_millihz, interlaced))
}

/// Total lines per frame under Normal blanking, rounded down (the interlaced
/// half line is dropped by the rounding).
pub open spec fn normal_v_total(h_pixels: int, v_pixels: int, refresh_millihz: int, margins: bool, interlaced: bool) -> int {
    v_lines_rnd(v_pixels, interlaced) + 2 * v_margin(v_pixels, interlaced, margins)
        + normal_v_sync_bp(h_pixels, v_pixels, refresh_millihz, margins, interlaced) + 3
}

// --- Reduced blanking (both revisions) -----------------------------------
//
// The estimated horizontal period spreads the field period minus a fixed
// 460 us vertical blanking interval over the active lines; it is the
// rational reduced_hpe_num / reduced_hpe_den microseconds.

/// Numerator of the estimated horizontal period under reduced blanking.
pub open spec fn reduced_hpe_num(refresh_millihz: int, interlaced: bool) -> int {
    1_000_000_000 - 460 * v_field_rate_millihz(refresh_millihz, interlaced)
}

/// Denominator of the estimated horizontal period under reduced blanking.
pub open spec fn reduced_hpe_den(v_pixels: int, refresh_millihz: int, margins: bool, interlaced: bool) -> int {
    v_field_rate_millihz(refresh_millihz, interlaced) * (v_lines_rnd(v_pixels, interlaced)
        + 2 * v_margin(v_pixels, interlaced, margins))
}

/// Fixed horizontal blanking width of each reduced mode, in pixels.
pub open spec fn reduced_h_blank(mode: BlankingMode) -> int {
    if mode == BlankingMode::ReducedV2 {
        80
    } else {
        160
    }
}

/// The least vertical blanking interval a reduced mode accepts: front porch
/// constant plus sync width plus the 6-line minimum back porch.
pub open spec fn reduced_min_vbi(mode: BlankingMode, interlaced: bool, v_pixels: int, h_pixels: int) -> int {
    if mode == BlankingMode::ReducedV2 {
        15
    } else {
        v_sync_width_aspect(interlaced, v_pixels, h_pixels) + 9
    }
}

/// Whether the period-derived vertical blanking interval, 460 us over the
/// estimated period plus one line, falls short of the mode's minimum.
pub open spec fn reduced_use_min(mode: BlankingMode, h_pixels: int, v_pixels: int, refresh_millihz: int, margins: bool, interlaced: bool) -> bool {
    460 * reduced_hpe_den(v_pixels, refresh_millihz, margins, interlaced)
        < (reduced_min_vbi(mode, interlaced, v_pixels, h_pixels) - 1)
            * reduced_hpe_num(refresh_millihz, interlaced)
}

/// Vertical blanking lines under reduced blanking: the larger of the
/// period-derived interval and the mode's minimum, rounded down.
pub open spec fn reduced_v_blank(mode: BlankingMode, h_pixels: int, v_pixels: int, refresh_millihz: int, margins: bool, interlaced: bool) -> int {
    if reduced_use_min(mode, h_pixels, v_pixels, refresh_millihz, margins, interlaced) {
        reduced_min_vbi(mode, interlaced, v_pixels, h_pixels)
    } else {
        (460 * reduced_hpe_den(v_pixels, refresh_millihz, margins, interlaced))
            / reduced_hpe_num(refresh_millihz, interlaced) + 1
    }
}

/// Numerator of the exact total line count per frame under reduced blanking,
/// over [`reduced_tvl_den`]; the vertical blanking interval enters here
/// unrounded, as the standard prescribes.
pub open spec fn reduced_tvl_num(mode: BlankingMode, h_pixels: int, v_pixels: int, refresh_millihz: int, margins: bool, interlaced: bool) -> int {
    let active = v_lines_rnd(v_pixels, interlaced) + 2 * v_margin(v_pixels, interlaced, margins);
    let j = interlace_half(interlaced);
    if reduced_use_min(mode, h_pixels, v_pixels, refresh_millihz, margins, interlaced) {
        2 * (reduced_min_vbi(mode, interlaced, v_pixels, h_pixels) + active) + j
    } else {
        let num = reduced_hpe_num(refresh_millihz, interlaced);
        let den = reduced_hpe_den(v_pixels, refresh_millihz, margins, interlaced);
        2 * (460 * den + num * (1 + active)) + j * num
    }
}

/// Denominator of the exact total line count per frame under reduced
/// blanking.
pub open spec fn reduced_tvl_den(mode: BlankingMode, h_pixels: int, v_pixels: int, refresh_millihz: int, margins: bool, interlaced: bool) -> int {
    if reduced_use_min(mode, h_pixels, v_pixels, refresh_millihz, margins, interlaced) {
        2
    } else {
        2 * reduced_hpe_num(refresh_millihz, interlaced)
    }
}

/// Total lines per frame under reduced blanking, rounded down.
pub open spec fn reduced_v_total(mode: BlankingMode, h_pixels: int, v_pixels: int, refresh_millihz: int, margins: bool, interlaced: bool) -> int {
    reduced_tvl_num(mode, h_pixels, v_pixels, refresh_millihz, margins, interlaced)
        / reduced_tvl_den(mode, h_pixels, v_pixels, refresh_millihz, margins, interlaced)
}

/// Total pixels per line under reduced blanking.
pub open spec fn reduced_total_pixels(mode: BlankingMode, h_pixels: int, margins: bool) -> int {
    total_active_pixels(h_pixels, margins) + reduced_h_blank(mode)
}

/// Pixel clock under reduced blanking, in kilohertz: field rate times exact
/// total lines times total pixels, rounded down to the mode's clock step
/// (0.25 MHz for Reduced, 1 kHz for ReducedV2).
pub open spec fn reduced_pixel_clock_khz(mode: BlankingMode, h_pixels: int, v_pixels: int, refresh_millihz: int, margins: bool, interlaced: bool) -> int {
    let vm = v_field_rate_millihz(refresh_millihz, interlaced);
    let tp = reduced_total_pixels(mode, h_pixels, margins);
    let tnum = reduced_tvl_num(mode, h_pixels, v_pixels, refresh_millihz, margins, interlaced);
    let tden = reduced_tvl_den(mode, h_pixels, v_pixels, refresh_millihz, margins, interlaced);
    if mode == BlankingMode::ReducedV2 {
        (vm * tp * tnum) / (1_000_000 * tden)
    } else {
        250 * ((4 * vm * tp * tnum) / (1_000_000_000 * tden))
    }
}

// --- Dispatch over the three modes ----------------------------------------

/// Pixel clock in kilohertz.
pub open spec fn pixel_clock_khz(mode: BlankingMode, h_pixels: int, v_pixels: int, refresh_millihz: int, margins: bool, interlaced: bool) -> int {
    if mode == BlankingMode::Normal {
        normal_pixel_clock_khz(h_pixels, v_pixels, refresh_millihz, margins, interlaced)
    } else {
        reduced_pixel_clock_khz(mode, h_pixels, v_pixels, refresh_millihz, margins, interlaced)
    }
}

/// Total pixels per line.
pub open spec fn total_pixels(mode: BlankingMode, h_pixels: int, v_pixels: int, refresh_millihz: int, margins: bool, interlaced: bool) -> int {
    if mode == BlankingMode::Normal {
        normal_total_pixels(h_pixels, v_pixels, refresh_millihz, margins, interlaced)
    } else {
        reduced_total_pixels(mode, h_pixels, margins)
    }
}

/// Horizontal blanking pixels.
pub open spec fn h_blank_spec(mode: BlankingMode, h_pixels: int, v_pixels: int, refresh_millihz: int, margins: bool, interlaced: bool) -> int {
    if mode == BlankingMode::Normal {
        normal_h_blank(h_pixels, v_pixels, refresh_millihz, margins, interlaced)
    } else {
        reduced_h_blank(mode)
    }
}

/// Horizontal sync pixels.
pub open spec fn h_sync_spec(mode: BlankingMode, h_pixels: int, v_pixels: int, refresh_millihz: int, margins: bool, interlaced: bool) -> int {
    if mode == BlankingMode::Normal {
        normal_h_sync(h_pixels, v_pixels, refresh_millihz, margins, interlaced)
    } else {
        32
    }
}

/// Horizontal back porch pixels.
pub open spec fn h_back_porch_spec(mode: BlankingMode, h_pixels: int, v_pixels: int, refresh_millihz: int, margins: bool, interlaced: bool) -> int {
    if mode == BlankingMode::Normal {
        normal_h_blank(h_pixels, v_pixels, refresh_millihz, margins, interlaced) / 2
    } else if mode == BlankingMode::Reduced {
        80
    } else {
        40
    }
}

/// Horizontal front porch pixels: what the blank leaves after sync and back
/// porch.
pub open spec fn h_front_porch_spec(mode: BlankingMode, h_pixels: int, v_pixels: int, refresh_millihz: int, margins: bool, interlaced: bool) -> int {
    h_blank_spec(mode, h_pixels, v_pixels, refresh_millihz, margins, interlaced)
        - h_sync_spec(mode, h_pixels, v_pixels, refresh_millihz, margins, interlaced)
        - h_back_porch_spec(mode, h_pixels, v_pixels, refresh_millihz, margins, interlaced)
}

/// Vertical blanking lines.
pub open spec fn v_blank_spec(mode: BlankingMode, h_pixels: int, v_pixels: int, refresh_millihz: int, margins: bool, interlaced: bool) -> int {
    if mode == BlankingMode::Normal {
        normal_v_sync_bp(h_pixels, v_pixels, refresh_millihz, margins, interlaced) + 3
    } else {
        reduced_v_blank(mode, h_pixels, v_pixels, refresh_millihz, margins, interlaced)
    }
}

/// Vertical front porch lines.
pub open spec fn v_front_porch_spec(mode: BlankingMode, h_pixels: int, v_pixels: int, refresh_millihz: int, margins: bool, interlaced: bool) -> int {
    if mode == BlankingMode::ReducedV2 {
        reduced_v_blank(mode, h_pixels, v_pixels, refresh_millihz, margins, interlaced) - 14
    } else {
        3
    }
}

/// Vertical back porch lines.
pub open spec fn v_back_porch_spec(mode: BlankingMode, h_pixels: int, v_pixels: int, refresh_millihz: int, margins: bool, interlaced: bool) -> int {
    if mode == BlankingMode::Normal {
        normal_v_sync_bp(h_pixels, v_pixels, refresh_millihz, margins, interlaced)
            - v_sync_width_aspect(interlaced, v_pixels, h_pixels)
    } else if mode == BlankingMode::Reduced {
        reduced_v_blank(mode, h_pixels, v_pixels, refresh_millihz, margins, interlaced) - 3
            - v_sync_width_aspect(interlaced, v_pixels, h_pixels)
    } else {
        6
    }
}

/// Total lines per frame, rounded down.
pub open spec fn v_total_spec(mode: BlankingMode, h_pixels: int, v_pixels: int, refresh_millihz: int, margins: bool, interlaced: bool) -> int {
    if mode == BlankingMode::Normal {
        normal_v_total(h_pixels, v_pixels, refresh_millihz, margins, interlaced)
    } else {
        reduced_v_total(mode, h_pixels, v_pixels, refresh_millihz, margins, interlaced)
    }
}

/// Numerator of the exact (unrounded) total line count, over
/// [`tvl_den_spec`]; the frequencies are derived from this exact value.
pub open spec fn tvl_num_spec(mode: BlankingMode, h_pixels: int, v_pixels: int, refresh_millihz: int, margins: bool, interlaced: bool) -> int {
    if mode == BlankingMode::Normal {
        2 * normal_v_total(h_pixels, v_pixels, refresh_millihz, margins, interlaced)
            + interlace_half(interlaced)
    } else {
        reduced_tvl_num(mode, h_pixels, v_pixels, refresh_millihz, margins, interlaced)
    }
}

/// Denominator of the exact total line count.
pub open spec fn tvl_den_spec(mode: BlankingMode, h_pixels: int, v_pixels: int, refresh_millihz: int, margins: bool, interlaced: bool) -> int {
    if mode == BlankingMode::Normal {
        2
    } else {
        reduced_tvl_den(mode, h_pixels, v_pixels, refresh_millihz, margins, interlaced)
    }
}

/// Horizontal scan frequency in hundredths of a hertz: the pixel clock over
/// the total pixels per line, rounded to the nearest hundredth (half up).
pub open spec fn h_freq_centihz(mode: BlankingMode, h_pixels: int, v_pixels: int, refresh_millihz: int, margins: bool, interlaced: bool) -> int {
    let khz = pixel_clock_khz(mode, h_pixels, v_pixels, refresh_millihz, margins, interlaced);
    let tp = total_pixels(mode, h_pixels, v_pixels, refresh_millihz, margins, interlaced);
    (200_000 * khz + tp) / (2 * tp)
}

/// Vertical scan frequency in hundredths of a hertz: the pixel clock over
/// the exact total lines times total pixels, rounded to the nearest
/// hundredth (half up).
pub open spec fn v_freq_centihz(mode: BlankingMode, h_pixels: int, v_pixels: int, refresh_millihz: int, margins: bool, interlaced: bool) -> int {
    let khz = pixel_clock_khz(mode, h_pixels, v_pixels, refresh_millihz, margins, interlaced);
    let tp = total_pixels(mode, h_pixels, v_pixels, refresh_millihz, margins, interlaced);
    let tnum = tvl_num_spec(mode, h_pixels, v_pixels, refresh_millihz, margins, interlaced);
    let tden = tvl_den_spec(mode, h_pixels, v_pixels, refresh_millihz, margins, interlaced);
    (200_000 * khz * tden + tnum * tp) / (2 * (tnum * tp))
}

/// Horizontal sync polarity: positive for the reduced modes, negative for
/// Normal.
pub open spec fn h_polarity(mode: BlankingMode) -> bool {
    mode != BlankingMode::Normal
}

/// Vertical sync polarity: positive for Normal, negative for the reduced
/// modes.
pub open spec fn v_polarity(mode: BlankingMode) -> bool {
    mode == BlankingMode::Normal
}

// --- Validity -------------------------------------------------------------

/// The resolutions the generator accepts: at least one full 8-pixel cell and
/// one line per field, and within the 16-bit range every real display sits
/// in, so that every derived quantity fits its field.
pub open spec fn resolution_ok(h_pixels: int, v_pixels: int, interlaced: bool) -> bool {
    &&& 8 <= h_pixels <= 65535
    &&& 1 <= v_pixels <= 65535
    &&& (interlaced ==> 2 <= v_pixels)
}

/// The refresh rates the generator accepts: positive, and with a field rate
/// of at most 1 kHz, which keeps the 550 us blanking budget inside the field
/// period.
pub open spec fn refresh_ok(refresh_millihz: int, interlaced: bool) -> bool {
    &&& 1 <= refresh_millihz
    &&& v_field_rate_millihz(refresh_millihz, interlaced) <= 1_000_000
}

/// The requests the generator accepts.
pub open spec fn valid_params(h_pixels: int, v_pixels: int, refresh_millihz: int, interlaced: bool) -> bool {
    &&& resolution_ok(h_pixels, v_pixels, interlaced)
    &&& refresh_ok(refresh_millihz, interlaced)
}

// --- The assembled result -------------------------------------------------

/// The abstract value of a generated timing: every field of the result as an
/// unbounded integer. Frequencies are in hundredths of a hertz, the clock in
/// kilohertz, the periods exact rationals in seconds.
pub struct TimingsModel {
    pub pixel_clock_khz: int,
    pub h_total: int,
    pub h_active: int,
    pub h_blank: int,
    pub h_front_porch: int,
    pub h_sync: int,
    pub h_back_porch: int,
    pub h_sync_polarity: bool,
    pub h_freq_centihz: int,
    pub h_period_num: int,
    pub h_period_den: int,
    pub v_total: int,
    pub v_active: int,
    pub v_blank: int,
    pub v_front_porch: int,
    pub v_sync: int,
    pub v_back_porch: int,
    pub v_sync_polarity: bool,
    pub v_freq_centihz: int,
    pub v_period_num: int,
    pub v_period_den: int,
    pub interlaced: bool,
}

/// The timing the CVT formula derives for a request: the specification the
/// executable generator is proved against, field by field.
pub open spec fn spec_generate(h_pixels: int, v_pixels: int, refresh_millihz: int, mode: BlankingMode, margins: bool, interlaced: bool) -> TimingsModel {
    TimingsModel {
        pixel_clock_khz: pixel_clock_khz(mode, h_pixels, v_pixels, refresh_millihz, margins, interlaced),
        h_total: total_pixels(mode, h_pixels, v_pixels, refresh_millihz, margins, interlaced),
        h_active: total_active_pixels(h_pixels, margins),
        h_blank: h_blank_spec(mode, h_pixels, v_pixels, refresh_millihz, margins, interlaced),
        h_front_porch: h_front_porch_spec(mode, h_pixels, v_pixels, refresh_millihz, margins, interlaced),
        h_sync: h_sync_spec(mode, h_pixels, v_pixels, refresh_millihz, margins, interlaced),
        h_back_porch: h_back_porch_spec(mode, h_pixels, v_pixels, refresh_millihz, margins, interlaced),
        h_sync_polarity: h_polarity(mode),
        h_freq_centihz: h_freq_centihz(mode, h_pixels, v_pixels, refresh_millihz, margins, interlaced),
        h_period_num: 100,
        h_period_den: h_freq_centihz(mode, h_pixels, v_pixels, refresh_millihz, margins, interlaced),
        v_total: v_total_spec(mode, h_pixels, v_pixels, refresh_millihz, margins, interlaced),
        v_active: v_lines_rnd(v_pixels, interlaced),
        v_blank: v_blank_spec(mode, h_pixels, v_pixels, refresh_millihz, margins, interlaced),
        v_front_porch: v_front_porch_spec(mode, h_pixels, v_pixels, refresh_millihz, margins, interlaced),
        v_sync: v_sync_width(mode, interlaced, v_pixels, h_pixels),
        v_back_porch: v_back_porch_spec(mode, h_pixels, v_pixels, refresh_millihz, margins, interlaced),
        v_sync_polarity: v_polarity(mode),
        v_freq_centihz: v_freq_centihz(mode, h_pixels, v_pixels, refresh_millihz, margins, interlaced),
        v_period_num: 100,
        v_period_den: v_freq_centihz(mode, h_pixels, v_pixels, refresh_millihz, margins, interlaced),
        interlaced: interlaced,
    }
}

} // verus!
