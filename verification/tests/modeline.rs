use cvt_utils::{BlankingMode, CvtTimings};

#[test]
fn modeline_reduced_v2_1280x1024() {
    let t = CvtTimings::generate(1280, 1024, 60000, BlankingMode::ReducedV2, false, false);
    assert_eq!(
        t.generate_modeline(),
        "Modeline \"1280x1024_60.00\" 86.011 1280 1288 1320 1360 1024 1040 1048 1054 +HSync -VSync "
    );
}

#[test]
fn modeline_interlaced() {
    let t = CvtTimings::generate(1280, 1024, 60000, BlankingMode::ReducedV2, false, true);
    assert_eq!(
        t.generate_modeline(),
        "Modeline \"1280x512_120.00i\" 88.685 1280 1288 1320 1360 512 528 536 543 +HSync -VSync Interlace"
    );
}

#[test]
fn modeline_normal_1024x768() {
    let t = CvtTimings::generate(1024, 768, 60000, BlankingMode::Normal, false, false);
    assert_eq!(
        t.generate_modeline(),
        "Modeline \"1024x768_59.92\" 63.5 1024 1072 1176 1328 768 771 775 798 -HSync +VSync "
    );
}

#[test]
fn modeline_reduced_1920x1080() {
    let t = CvtTimings::generate(1920, 1080, 60000, BlankingMode::Reduced, false, false);
    assert_eq!(
        t.generate_modeline(),
        "Modeline \"1920x1080_59.90\" 138.5 1920 1968 2000 2080 1080 1083 1088 1111 +HSync -VSync "
    );
}

#[test]
fn modeline_whole_megahertz_clock() {
    // 72.000 MHz: the fractional digits drop entirely.
    let t = CvtTimings::generate(1366, 768, 60000, BlankingMode::Reduced, false, false);
    assert_eq!(
        t.generate_modeline(),
        "Modeline \"1360x768_59.90\" 72 1360 1408 1440 1520 768 771 781 790 +HSync -VSync "
    );
}

#[test]
fn modeline_degenerate_zero_clock() {
    let t = CvtTimings::generate(8, 1, 1000, BlankingMode::Normal, false, false);
    assert_eq!(
        t.generate_modeline(),
        "Modeline \"8x1_0.00\" 0 8 9 9 10 1 4 14 20 -HSync +VSync "
    );
}
