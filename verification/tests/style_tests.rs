use cnxt::Style;
use cnxt::Styles;

const ALL_STYLES: [Styles; 8] = [
    Styles::Bold,
    Styles::Dimmed,
    Styles::Underline,
    Styles::Reversed,
    Styles::Italic,
    Styles::Blink,
    Styles::Hidden,
    Styles::Strikethrough,
];

#[test]
fn styles_to_u8_values() {
    assert_eq!(Styles::Clear.to_u8(), 0x00);
    assert_eq!(Styles::Bold.to_u8(), 0x01);
    assert_eq!(Styles::Underline.to_u8(), 0x02);
    assert_eq!(Styles::Reversed.to_u8(), 0x04);
    assert_eq!(Styles::Italic.to_u8(), 0x08);
    assert_eq!(Styles::Blink.to_u8(), 0x10);
    assert_eq!(Styles::Hidden.to_u8(), 0x20);
    assert_eq!(Styles::Dimmed.to_u8(), 0x40);
    assert_eq!(Styles::Strikethrough.to_u8(), 0x80);
}

#[test]
fn styles_to_str_codes() {
    assert_eq!(Styles::Clear.to_str(), "");
    assert_eq!(Styles::Bold.to_str(), "1");
    assert_eq!(Styles::Dimmed.to_str(), "2");
    assert_eq!(Styles::Italic.to_str(), "3");
    assert_eq!(Styles::Underline.to_str(), "4");
    assert_eq!(Styles::Blink.to_str(), "5");
    assert_eq!(Styles::Reversed.to_str(), "7");
    assert_eq!(Styles::Hidden.to_str(), "8");
    assert_eq!(Styles::Strikethrough.to_str(), "9");
}

#[test]
fn styles_from_u8_empty_is_none() {
    assert_eq!(Styles::from_u8(0), None);
}

#[test]
fn styles_from_u8_lists_in_fixed_order() {
    assert_eq!(Styles::from_u8(0x01), Some(vec![Styles::Bold]));
    // Bold and Dimmed: Dimmed's bit is high but it comes second in the
    // enumeration order.
    assert_eq!(Styles::from_u8(0x41), Some(vec![Styles::Bold, Styles::Dimmed]));
    assert_eq!(Styles::from_u8(0xFF), Some(ALL_STYLES.to_vec()));
}

#[test]
fn contains_add_remove() {
    let mut s = Style::default();
    assert!(!s.contains(Styles::Bold));
    s.add(Styles::Bold);
    assert!(s.contains(Styles::Bold));
    s.add(Styles::Italic);
    assert!(s.contains(Styles::Bold));
    assert!(s.contains(Styles::Italic));
    s.remove(Styles::Bold);
    assert!(!s.contains(Styles::Bold));
    assert!(s.contains(Styles::Italic));
}

#[test]
fn union_with_complement_holds_everything() {
    let samples = [
        Style::default(),
        Style::from(Styles::Bold),
        Style::default().bold().italic().hidden(),
        Style::default().strikethrough(),
    ];
    for x in samples {
        let full = x.union(x.complement());
        for s in ALL_STYLES {
            assert!(full.contains(s));
        }
    }
}

#[test]
fn intersect_with_complement_is_clear() {
    let samples = [
        Style::default(),
        Style::from(Styles::Dimmed),
        Style::default().bold().underline().blink(),
    ];
    for x in samples {
        assert_eq!(x.intersect(x.complement()), Style::default());
    }
}

#[test]
fn symmetric_difference_and_complement() {
    let x = Style::default().bold().italic();
    let y = Style::default().italic().underline();
    let d = x.symmetric_difference(y);
    assert!(d.contains(Styles::Bold));
    assert!(d.contains(Styles::Underline));
    assert!(!d.contains(Styles::Italic));
    let not_bold = Styles::Bold.complement();
    assert!(!not_bold.contains(Styles::Bold));
    assert!(not_bold.contains(Styles::Underline));
}

#[test]
fn serialize_clear_is_empty() {
    assert_eq!(Style::default().to_str(), "");
}

#[test]
fn serialize_single_codes() {
    assert_eq!(Style::from(Styles::Bold).to_str(), "1");
    assert_eq!(Style::from(Styles::Strikethrough).to_str(), "9");
}

#[test]
fn serialize_joins_in_fixed_order() {
    let s = Style::default().bold().italic().underline();
    // Fixed enumeration order: Bold, Dimmed, Underline, Reversed, Italic,
    // Blink, Hidden, Strikethrough.
    assert_eq!(s.to_str(), "1;4;3");
    let all = Style::default()
        .bold()
        .dimmed()
        .underline()
        .reversed()
        .italic()
        .blink()
        .hidden()
        .strikethrough();
    assert_eq!(all.to_str(), "1;2;4;7;3;5;8;9");
}

#[test]
fn from_styles_unions_the_list() {
    let s = Style::from_styles(&vec![Styles::Bold, Styles::Italic]);
    assert!(s.contains(Styles::Bold));
    assert!(s.contains(Styles::Italic));
    assert!(!s.contains(Styles::Underline));
    assert_eq!(Style::from_styles(&vec![]), Style::default());
}

#[test]
fn style_from_single_flag() {
    assert_eq!(Style::from(Styles::Bold), Style::default().bold());
    assert_eq!(Style::from(Styles::Clear), Style::default());
}
