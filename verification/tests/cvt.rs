use cvt_utils::{classify, AspectRatio, BlankingMode, CvtError, CvtTimings};

fn sum_h(t: &CvtTimings) -> u32 {
    t.h_active + t.h_front_porch + t.h_sync + t.h_back_porch
}

fn sum_v(t: &CvtTimings) -> u32 {
    t.v_active + t.v_front_porch + t.v_sync + t.v_back_porch
}

#[test]
fn determinism_repeated_calls() {
    let a = CvtTimings::generate(1920, 1080, 59940, BlankingMode::Reduced, false, false);
    let b = CvtTimings::generate(1920, 1080, 59940, BlankingMode::Reduced, false, false);
    assert_eq!(a, b);
    let c = CvtTimings::generate(800, 600, 60000, BlankingMode::Normal, true, true);
    let d = CvtTimings::generate(800, 600, 60000, BlankingMode::Normal, true, true);
    assert_eq!(c, d);
}

#[test]
fn geometry_invariant_normal() {
    let t = CvtTimings::generate(1280, 1024, 60000, BlankingMode::Normal, false, false);
    assert_eq!(t.h_total, sum_h(&t));
    assert_eq!(t.v_total, sum_v(&t));
}

#[test]
fn geometry_invariant_reduced() {
    let t = CvtTimings::generate(1920, 1080, 60000, BlankingMode::Reduced, false, false);
    assert_eq!(t.h_total, sum_h(&t));
    assert_eq!(t.v_total, sum_v(&t));
}

#[test]
fn geometry_invariant_reduced_v2() {
    let t = CvtTimings::generate(1280, 1024, 60000, BlankingMode::ReducedV2, false, false);
    assert_eq!(t.h_total, sum_h(&t));
    assert_eq!(t.v_total, sum_v(&t));
}

#[test]
fn geometry_invariant_horizontal_with_margins_interlaced() {
    // The horizontal identity holds even where the vertical one picks up
    // the margin bands.
    for mode in [BlankingMode::Normal, BlankingMode::Reduced, BlankingMode::ReducedV2] {
        let t = CvtTimings::generate(1280, 1024, 60000, mode, true, true);
        assert_eq!(t.h_total, sum_h(&t));
    }
}

#[test]
fn monotonic_clock_reduced() {
    let lo = CvtTimings::generate(1920, 1080, 60000, BlankingMode::Reduced, false, false);
    let hi = CvtTimings::generate(1920, 1080, 75000, BlankingMode::Reduced, false, false);
    assert_eq!(lo.pixel_clock, 138500);
    assert_eq!(hi.pixel_clock, 174500);
    assert!(lo.pixel_clock <= hi.pixel_clock);
}

#[test]
fn monotonic_clock_reduced_v2_sweep() {
    let mut prev = 0u64;
    for rate in [30000u64, 50000, 59940, 60000, 75000, 120000, 240000] {
        let t = CvtTimings::generate(2560, 1440, rate, BlankingMode::ReducedV2, false, false);
        assert!(t.pixel_clock >= prev);
        prev = t.pixel_clock;
    }
}

#[test]
fn monotonic_clock_normal() {
    let lo = CvtTimings::generate(1920, 1200, 60000, BlankingMode::Normal, false, false);
    let hi = CvtTimings::generate(1920, 1200, 85000, BlankingMode::Normal, false, false);
    assert_eq!(lo.pixel_clock, 193250);
    assert_eq!(hi.pixel_clock, 281250);
    assert!(lo.pixel_clock <= hi.pixel_clock);
}

#[test]
fn reduced_fixed_fields() {
    for (w, h, rate) in [(1920u32, 1080u32, 60000u64), (640, 480, 75000), (3840, 2160, 30000)] {
        let t = CvtTimings::generate(w, h, rate, BlankingMode::Reduced, false, false);
        assert_eq!(t.h_sync, 32);
        assert_eq!(t.h_back_porch, 80);
        assert_eq!(t.h_blank, 160);
        assert!(t.h_sync_polarity);
        assert!(!t.v_sync_polarity);
    }
}

#[test]
fn reduced_v2_fixed_fields() {
    for (w, h, rate) in [(1280u32, 1024u32, 60000u64), (640, 480, 75000), (3840, 2160, 30000)] {
        let t = CvtTimings::generate(w, h, rate, BlankingMode::ReducedV2, false, false);
        assert_eq!(t.h_sync, 32);
        assert_eq!(t.h_back_porch, 40);
        assert_eq!(t.h_blank, 80);
        assert_eq!(t.v_sync, 8);
    }
}

#[test]
fn reciprocal_period() {
    for mode in [BlankingMode::Normal, BlankingMode::Reduced, BlankingMode::ReducedV2] {
        let t = CvtTimings::generate(1920, 1080, 60000, mode, false, false);
        assert_eq!(t.h_period.num, 100);
        assert_eq!(t.h_period.den, t.h_freq);
        assert_eq!(t.v_period.num, 100);
        assert_eq!(t.v_period.den, t.v_freq);
        assert!(t.h_freq > 0);
        assert!(t.v_freq > 0);
    }
}

#[test]
fn classify_four_by_three() {
    assert_eq!(classify(false, 768, 1024), AspectRatio::Aspect4by3);
    assert_eq!(classify(false, 480, 640), AspectRatio::Aspect4by3);
    // Interlaced: the rounded field lines stand for twice as many.
    assert_eq!(classify(true, 384, 1024), AspectRatio::Aspect4by3);
}

#[test]
fn classify_other_ratios() {
    assert_eq!(classify(false, 1080, 1920), AspectRatio::Aspect16by9);
    assert_eq!(classify(false, 1200, 1920), AspectRatio::Aspect16by10);
    assert_eq!(classify(false, 1024, 1280), AspectRatio::Aspect5by4);
    assert_eq!(classify(false, 1000, 1000), AspectRatio::AspectUnknown);
}

#[test]
fn four_by_three_uses_sync_width_four() {
    let t = CvtTimings::generate(1024, 768, 60000, BlankingMode::Normal, false, false);
    assert_eq!(t.v_sync, 4);
    let r = CvtTimings::generate(1024, 768, 60000, BlankingMode::Reduced, false, false);
    assert_eq!(r.v_sync, 4);
}

#[test]
fn scenario_reduced_v2_1280x1024() {
    let t = CvtTimings::generate(1280, 1024, 60000, BlankingMode::ReducedV2, false, false);
    assert_eq!(t.h_active, 1280);
    assert_eq!(t.v_active, 1024);
    assert_eq!(t.h_sync, 32);
    assert_eq!(t.h_back_porch, 40);
    assert_eq!(t.h_front_porch, 8);
    assert_eq!(t.h_total, 1360);
    assert_eq!(t.v_total, 1054);
    assert_eq!(t.v_blank, 30);
    assert_eq!(t.pixel_clock, 86011);
    assert_eq!(t.v_freq, 6000);
    let m = t.generate_modeline();
    assert!(m.contains("1280x1024_60.00"));
    assert!(!m.contains("1280x1024_60.00i"));
    assert!(!m.contains("Interlace"));
}

#[test]
fn scenario_interlaced_doubles_field_rate() {
    let t = CvtTimings::generate(1280, 1024, 60000, BlankingMode::ReducedV2, false, true);
    assert!(t.interlaced);
    // Half the lines per field, twice the field rate.
    assert_eq!(t.v_active, 512);
    assert_eq!(t.v_freq, 12000);
    assert_eq!(t.pixel_clock, 88685);
    let m = t.generate_modeline();
    assert!(m.contains("_120.00i"));
    assert!(m.ends_with("Interlace"));
}

#[test]
fn scenario_margins_increase_active() {
    let plain = CvtTimings::generate(1280, 1024, 60000, BlankingMode::Normal, false, false);
    let margined = CvtTimings::generate(1280, 1024, 60000, BlankingMode::Normal, true, false);
    assert_eq!(plain.h_active, 1280);
    // Each margin is 1.8% of the active width, truncated to the 8-pixel
    // cell: floor(1280 * 0.018 / 8) * 8 = 16 on either side.
    assert_eq!(margined.h_active, 1280 + 2 * 16);
    assert!(margined.h_active > plain.h_active);
    assert!(margined.h_total > plain.h_total);
}

#[test]
fn normal_1024x768_matches_cvt_tables() {
    let t = CvtTimings::generate(1024, 768, 60000, BlankingMode::Normal, false, false);
    assert_eq!(t.pixel_clock, 63500);
    assert_eq!(t.h_total, 1328);
    assert_eq!(t.h_front_porch, 48);
    assert_eq!(t.h_sync, 104);
    assert_eq!(t.h_back_porch, 152);
    assert_eq!(t.v_total, 798);
    assert_eq!(t.v_front_porch, 3);
    assert_eq!(t.v_back_porch, 23);
    assert_eq!(t.v_freq, 5992);
    assert!(!t.h_sync_polarity);
    assert!(t.v_sync_polarity);
}

#[test]
fn reduced_1920x1080_matches_cvt_tables() {
    let t = CvtTimings::generate(1920, 1080, 60000, BlankingMode::Reduced, false, false);
    assert_eq!(t.pixel_clock, 138500);
    assert_eq!(t.h_total, 2080);
    assert_eq!(t.h_front_porch, 48);
    assert_eq!(t.v_total, 1111);
    assert_eq!(t.v_blank, 31);
    assert_eq!(t.v_sync, 5);
    assert_eq!(t.v_freq, 5990);
}

#[test]
fn width_rounds_down_to_cell() {
    let t = CvtTimings::generate(1366, 768, 60000, BlankingMode::Reduced, false, false);
    assert_eq!(t.h_active, 1360);
    assert_eq!(t.h_total, 1520);
    assert_eq!(t.pixel_clock, 72000);
}

#[test]
fn tiny_request_stays_total() {
    // Degenerate but accepted: the clock rounds down to zero and the
    // period denominator records the zero frequency.
    let t = CvtTimings::generate(8, 1, 1000, BlankingMode::Normal, false, false);
    assert_eq!(t.pixel_clock, 0);
    assert_eq!(t.h_total, 10);
    assert_eq!(t.h_freq, 0);
    assert_eq!(t.h_period.den, 0);
    assert_eq!(t.h_total, sum_h(&t));
    assert_eq!(t.v_total, sum_v(&t));
}

#[test]
fn try_generate_rejects_resolution() {
    let r = CvtTimings::try_generate(7, 768, 60000, BlankingMode::Normal, false, false);
    assert_eq!(r, Err(CvtError::InvalidResolution));
    let r = CvtTimings::try_generate(1024, 0, 60000, BlankingMode::Normal, false, false);
    assert_eq!(r, Err(CvtError::InvalidResolution));
    let r = CvtTimings::try_generate(1024, 1, 60000, BlankingMode::Normal, false, true);
    assert_eq!(r, Err(CvtError::InvalidResolution));
    let r = CvtTimings::try_generate(70000, 768, 60000, BlankingMode::Normal, false, false);
    assert_eq!(r, Err(CvtError::InvalidResolution));
}

#[test]
fn try_generate_rejects_refresh() {
    let r = CvtTimings::try_generate(1024, 768, 0, BlankingMode::Normal, false, false);
    assert_eq!(r, Err(CvtError::InvalidRefreshRate));
    let r = CvtTimings::try_generate(1024, 768, 2_000_000, BlankingMode::Normal, false, false);
    assert_eq!(r, Err(CvtError::InvalidRefreshRate));
    // Interlacing doubles the field rate, halving the acceptable range.
    let r = CvtTimings::try_generate(1024, 768, 600_000, BlankingMode::Normal, false, true);
    assert_eq!(r, Err(CvtError::InvalidRefreshRate));
}

#[test]
fn try_generate_accepts_valid() {
    let r = CvtTimings::try_generate(1920, 1080, 60000, BlankingMode::Reduced, false, false);
    let direct = CvtTimings::generate(1920, 1080, 60000, BlankingMode::Reduced, false, false);
    assert_eq!(r, Ok(direct));
}
