use cnxt::Color;
use cnxt::Colorize;
use cnxt::CustomColor;
use cnxt::parse_hex;

#[test]
fn six_digit_hex() {
    assert_eq!(
        parse_hex("ff0099"),
        Some(Color::TrueColor { r: 255, g: 0, b: 153 })
    );
    assert_eq!(
        parse_hex("123456"),
        Some(Color::TrueColor { r: 0x12, g: 0x34, b: 0x56 })
    );
}

#[test]
fn shorthand_duplicates_each_digit() {
    assert_eq!(parse_hex("f09"), parse_hex("ff0099"));
    assert_eq!(parse_hex("abc"), parse_hex("aabbcc"));
    assert_eq!(parse_hex("000"), parse_hex("000000"));
}

#[test]
fn leading_hash_is_optional() {
    assert_eq!(parse_hex("#123456"), parse_hex("123456"));
    assert_eq!(parse_hex("#f09"), parse_hex("f09"));
}

#[test]
fn upper_case_digits_parse() {
    assert_eq!(
        parse_hex("FF0099"),
        Some(Color::TrueColor { r: 255, g: 0, b: 153 })
    );
    assert_eq!(parse_hex("AbCdEf"), parse_hex("abcdef"));
}

#[test]
fn non_hex_characters_fail() {
    assert_eq!(parse_hex("zz0099"), None);
    assert_eq!(parse_hex("12345g"), None);
    assert_eq!(parse_hex("##f09"), None);
    assert_eq!(parse_hex("x0z"), None);
}

#[test]
fn wrong_lengths_fail() {
    assert_eq!(parse_hex(""), None);
    assert_eq!(parse_hex("#"), None);
    assert_eq!(parse_hex("12"), None);
    assert_eq!(parse_hex("1234"), None);
    assert_eq!(parse_hex("12345"), None);
    assert_eq!(parse_hex("1234567"), None);
}

#[test]
fn hexcolor_builders() {
    let cs = "x".hexcolor("f09");
    assert_eq!(cs.fgcolor, Some(Color::TrueColor { r: 255, g: 0, b: 153 }));
    let cs = "x".on_hexcolor("#336699");
    assert_eq!(
        cs.bgcolor,
        Some(Color::TrueColor { r: 0x33, g: 0x66, b: 0x99 })
    );
}

#[test]
fn try_hexcolor_fails_loudly_only_in_the_result() {
    assert!("x".try_hexcolor("nothex").is_none());
    assert!("x".try_on_hexcolor("ff00").is_none());
    let cs = "x".try_hexcolor("ff0099").unwrap();
    assert_eq!(cs.fgcolor, Some(Color::TrueColor { r: 255, g: 0, b: 153 }));
}

#[test]
fn custom_color_builders() {
    let c = CustomColor::new(1, 2, 3);
    assert_eq!(c, CustomColor::from((1, 2, 3)));
    let cs = "x".custom_color(c);
    assert_eq!(cs.fgcolor, Some(Color::TrueColor { r: 1, g: 2, b: 3 }));
    let cs = "x".on_custom_color(c);
    assert_eq!(cs.bgcolor, Some(Color::TrueColor { r: 1, g: 2, b: 3 }));
}
