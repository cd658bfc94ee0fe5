use cnxt::Color;
use cnxt::ColorLevel;
use cnxt::ansi256_to_rgb;

const LEVELS: [ColorLevel; 4] = [
    ColorLevel::Disabled,
    ColorLevel::Ansi16,
    ColorLevel::Ansi256,
    ColorLevel::TrueColor,
];

const NAMED: [Color; 16] = [
    Color::Black,
    Color::Red,
    Color::Green,
    Color::Yellow,
    Color::Blue,
    Color::Magenta,
    Color::Cyan,
    Color::White,
    Color::BrightBlack,
    Color::BrightRed,
    Color::BrightGreen,
    Color::BrightYellow,
    Color::BrightBlue,
    Color::BrightMagenta,
    Color::BrightCyan,
    Color::BrightWhite,
];

#[test]
fn ansi256_to_rgb_named_table() {
    let table = [
        (0, 0, 0),
        (128, 0, 0),
        (0, 128, 0),
        (128, 128, 0),
        (0, 0, 128),
        (128, 0, 128),
        (0, 128, 128),
        (192, 192, 192),
        (128, 128, 128),
        (255, 0, 0),
        (0, 255, 0),
        (255, 255, 0),
        (0, 0, 255),
        (255, 0, 255),
        (0, 255, 255),
        (255, 255, 255),
    ];
    for (i, want) in table.iter().enumerate() {
        assert_eq!(ansi256_to_rgb(i as u8), *want);
    }
}

#[test]
fn ansi256_to_rgb_cube_corners() {
    assert_eq!(ansi256_to_rgb(16), (0, 0, 0));
    assert_eq!(ansi256_to_rgb(231), (255, 255, 255));
}

#[test]
fn ansi256_to_rgb_cube_samples() {
    // 196 = 16 + 36*5: full red corner of the cube
    assert_eq!(ansi256_to_rgb(196), (255, 0, 0));
    // 21 = 16 + 5: full blue corner
    assert_eq!(ansi256_to_rgb(21), (0, 0, 255));
    // 67 = 16 + 36*1 + 6*2 + 3
    assert_eq!(ansi256_to_rgb(67), (95, 135, 175));
}

#[test]
fn ansi256_to_rgb_grayscale() {
    assert_eq!(ansi256_to_rgb(232), (8, 8, 8));
    assert_eq!(ansi256_to_rgb(255), (238, 238, 238));
    assert_eq!(ansi256_to_rgb(240), (88, 88, 88));
}

#[test]
fn named_fg_codes_fixed() {
    let fg = [
        "30", "31", "32", "33", "34", "35", "36", "37", "90", "91", "92", "93", "94", "95", "96",
        "97",
    ];
    for (c, want) in NAMED.iter().zip(fg.iter()) {
        for level in LEVELS {
            assert_eq!(c.to_fg_str(level), *want);
        }
    }
}

#[test]
fn named_bg_codes_fixed() {
    let bg = [
        "40", "41", "42", "43", "44", "45", "46", "47", "100", "101", "102", "103", "104", "105",
        "106", "107",
    ];
    for (c, want) in NAMED.iter().zip(bg.iter()) {
        for level in LEVELS {
            assert_eq!(c.to_bg_str(level), *want);
        }
    }
}

#[test]
fn truecolor_codes_at_full_fidelity() {
    let c = Color::TrueColor { r: 1, g: 2, b: 3 };
    assert_eq!(c.to_fg_str(ColorLevel::TrueColor), "38;2;1;2;3");
    assert_eq!(c.to_bg_str(ColorLevel::TrueColor), "48;2;1;2;3");
    let c = Color::TrueColor { r: 255, g: 128, b: 0 };
    assert_eq!(c.to_fg_str(ColorLevel::TrueColor), "38;2;255;128;0");
    assert_eq!(c.to_bg_str(ColorLevel::TrueColor), "48;2;255;128;0");
}

#[test]
fn ansi256_codes_at_256_and_above() {
    let c = Color::Ansi256 { idx: 42 };
    assert_eq!(c.to_fg_str(ColorLevel::Ansi256), "38;5;42");
    assert_eq!(c.to_fg_str(ColorLevel::TrueColor), "38;5;42");
    assert_eq!(c.to_bg_str(ColorLevel::Ansi256), "48;5;42");
    assert_eq!(c.to_bg_str(ColorLevel::TrueColor), "48;5;42");
}

#[test]
fn truecolor_downgrades_at_ansi16() {
    let c = Color::TrueColor { r: 255, g: 0, b: 0 };
    assert_eq!(c.to_fg_str(ColorLevel::Ansi16), "91");
    assert_eq!(c.to_bg_str(ColorLevel::Ansi16), "101");
}

#[test]
fn ansi256_downgrades_at_ansi16() {
    let c = Color::Ansi256 { idx: 196 };
    assert_eq!(c.to_fg_str(ColorLevel::Ansi16), "91");
    assert_eq!(c.to_bg_str(ColorLevel::Ansi16), "101");
}

#[test]
fn truecolor_downgrades_at_ansi256() {
    let c = Color::TrueColor { r: 95, g: 135, b: 175 };
    assert_eq!(c.to_fg_str(ColorLevel::Ansi256), "38;5;67");
    assert_eq!(c.to_bg_str(ColorLevel::Ansi256), "48;5;67");
}

#[test]
fn fallback_to_ansi16_exact_hits() {
    assert_eq!(
        Color::TrueColor { r: 0, g: 0, b: 0 }.fallback_to_ansi16(),
        Color::Black
    );
    assert_eq!(
        Color::TrueColor { r: 255, g: 255, b: 255 }.fallback_to_ansi16(),
        Color::BrightWhite
    );
    assert_eq!(
        Color::TrueColor { r: 255, g: 0, b: 0 }.fallback_to_ansi16(),
        Color::BrightRed
    );
}

#[test]
fn fallback_to_ansi16_tie_takes_first_table_entry() {
    // (64,0,0) is equally far from Black (0,0,0) and Red (128,0,0):
    // the earlier table entry wins.
    assert_eq!(
        Color::TrueColor { r: 64, g: 0, b: 0 }.fallback_to_ansi16(),
        Color::Black
    );
}

#[test]
fn fallback_to_ansi16_leaves_named_alone() {
    for c in NAMED {
        assert_eq!(c.fallback_to_ansi16(), c);
    }
}

#[test]
fn fallback_to_ansi16_idempotent() {
    let samples = [
        Color::TrueColor { r: 12, g: 34, b: 56 },
        Color::TrueColor { r: 200, g: 180, b: 20 },
        Color::TrueColor { r: 127, g: 127, b: 127 },
        Color::Ansi256 { idx: 100 },
        Color::Ansi256 { idx: 250 },
    ];
    for c in samples {
        let once = c.fallback_to_ansi16();
        assert_eq!(once.fallback_to_ansi16(), once);
    }
}

#[test]
fn fallback_to_ansi256_exact_hits() {
    // Black matches palette entry 0 exactly; ties go to the smallest index.
    assert_eq!(
        Color::TrueColor { r: 0, g: 0, b: 0 }.fallback_to_ansi256(),
        Color::Ansi256 { idx: 0 }
    );
    assert_eq!(
        Color::TrueColor { r: 8, g: 8, b: 8 }.fallback_to_ansi256(),
        Color::Ansi256 { idx: 232 }
    );
    assert_eq!(
        Color::TrueColor { r: 95, g: 135, b: 175 }.fallback_to_ansi256(),
        Color::Ansi256 { idx: 67 }
    );
}

#[test]
fn fallback_to_ansi256_leaves_non_truecolor_alone() {
    assert_eq!(
        Color::Ansi256 { idx: 5 }.fallback_to_ansi256(),
        Color::Ansi256 { idx: 5 }
    );
    assert_eq!(Color::Red.fallback_to_ansi256(), Color::Red);
}
