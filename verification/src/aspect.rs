//! The aspect-ratio classifier: decides which of the standard aspect ratios a
//! cell-aligned geometry matches. The CVT formula uses the answer only to pick
//! the vertical sync pulse width.

use vstd::prelude::*;

verus! {

/// The closed set of aspect ratios the CVT formula distinguishes.
#[derive(Copy, Clone, Debug, PartialEq, Eq, Structural)]
pub enum AspectRatio {
    Aspect4by3,
    Aspect16by9,
    Aspect16by10,
    Aspect5by4,
    Aspect15by9,
    Aspect43by18,
    Aspect64by27,
    Aspect12by5,
    AspectUnknown,
}

/// Effective vertical pixel count: an interlaced timing describes half-frames,
/// so its rounded line count stands for twice as many visible lines.
pub open spec fn effective_v_lines(interlaced: bool, v_lines_rnd: int) -> int {
    if interlaced {
        2 * v_lines_rnd
    } else {
        v_lines_rnd
    }
}

/// Whether the horizontal pixel count `h` is exactly the candidate the CVT
/// formula derives for `p` effective vertical lines at ratio `a : b`.
pub open spec fn ratio_matches(p: int, h: int, a: int, b: int) -> bool {
    (p * a) / b == h
}

/// The classifier: the first ratio, in the fixed order below, whose candidate
/// horizontal count equals the supplied one; earlier entries win ties.
pub open spec fn classify_spec(interlaced: bool, v_lines_rnd: int, h_pixels_rnd: int) -> AspectRatio {
    let p = effective_v_lines(interlaced, v_lines_rnd);
    let h = h_pixels_rnd;
    if ratio_matches(p, h, 4, 3) {
        AspectRatio::Aspect4by3
    } else if ratio_matches(p, h, 16, 9) {
        AspectRatio::Aspect16by9
    } else if ratio_matches(p, h, 16, 10) {
        AspectRatio::Aspect16by10
    } else if ratio_matches(p, h, 5, 4) {
        AspectRatio::Aspect5by4
    } else if ratio_matches(p, h, 15, 9) {
        AspectRatio::Aspect15by9
    } else if ratio_matches(p, h, 43, 18) {
        AspectRatio::Aspect43by18
    } else if ratio_matches(p, h, 64, 27) {
        AspectRatio::Aspect64by27
    } else if ratio_matches(p, h, 12, 5) {
        AspectRatio::Aspect12by5
    } else {
        AspectRatio::AspectUnknown
    }
}

/// Classifies a rounded geometry. `v_lines_rnd` is the rounded vertical line
/// count (half the requested lines when interlaced) and `h_pixels_rnd` the
/// horizontal pixel count already rounded down to the 8-pixel cell; it always
/// returns a value, `AspectUnknown` being the ordinary no-match answer.
pub fn classify(interlaced: bool, v_lines_rnd: u32, h_pixels_rnd: u32) -> (r: AspectRatio)
    ensures
        r == classify_spec(interlaced, v_lines_rnd as int, h_pixels_rnd as int),
{
    let p: u64 = if interlaced {
        2 * (v_lines_rnd as u64)
    } else {
        v_lines_rnd as u64
    };
    let h: u64 = h_pixels_rnd as u64;
    if (p * 4) / 3 == h {
        AspectRatio::Aspect4by3
    } else if (p * 16) / 9 == h {
        AspectRatio::Aspect16by9
    } else if (p * 16) / 10 == h {
        AspectRatio::Aspect16by10
    } else if (p * 5) / 4 == h {
        AspectRatio::Aspect5by4
    } else if (p * 15) / 9 == h {
        AspectRatio::Aspect15by9
    } else if (p * 43) / 18 == h {
        AspectRatio::Aspect43by18
    } else if (p * 64) / 27 == h {
        AspectRatio::Aspect64by27
    } else if (p * 12) / 5 == h {
        AspectRatio::Aspect12by5
    } else {
        AspectRatio::AspectUnknown
    }
}

} // verus!
