use screen_color_picker::color::{sample_color, CanonicalColor, SampledColor};

fn describe(color: SampledColor) -> (CanonicalColor, String) {
    screen_color_picker::color::format(color)
}

#[test]
fn pure_red_is_described_exactly() {
    let (record, text) = describe(sample_color(255, 0, 0, 255));
    assert_eq!(text, "#FF0000 / rgb(255,0,0)");
    assert_eq!(record, CanonicalColor { r: 255, g: 0, b: 0, a: 255 });
}

#[test]
fn sample_color_keeps_each_channel() {
    assert_eq!(
        sample_color(1, 2, 3, 4),
        SampledColor { red: 1, green: 2, blue: 3, alpha: 4 }
    );
}

#[test]
fn hex_channels_are_two_upper_case_digits() {
    let (_, text) = describe(sample_color(0, 10, 171, 0));
    assert_eq!(text, "#000AAB / rgb(0,10,171)");
    let (_, text) = describe(sample_color(15, 16, 254, 9));
    assert_eq!(text, "#0F10FE / rgb(15,16,254)");
}

#[test]
fn decimal_channels_have_no_leading_zeros() {
    let (_, text) = describe(sample_color(9, 99, 100, 0));
    assert_eq!(text, "#096364 / rgb(9,99,100)");
    let (_, text) = describe(sample_color(7, 70, 207, 0));
    assert_eq!(text, "#0746CF / rgb(7,70,207)");
}

#[test]
fn alpha_is_carried_but_not_described() {
    let (opaque, opaque_text) = describe(sample_color(18, 52, 86, 255));
    let (clear, clear_text) = describe(sample_color(18, 52, 86, 0));
    assert_eq!(opaque_text, "#123456 / rgb(18,52,86)");
    assert_eq!(opaque_text, clear_text);
    assert_eq!(opaque.a, 255);
    assert_eq!(clear.a, 0);
}

#[test]
fn description_matches_std_formatting_for_every_channel_value() {
    for value in 0..=255u8 {
        let (_, text) = describe(sample_color(value, 255 - value, value / 2, 1));
        let expected = format!(
            "#{:02X}{:02X}{:02X} / rgb({},{},{})",
            value,
            255 - value,
            value / 2,
            value,
            255 - value,
            value / 2
        );
        assert_eq!(text, expected);
    }
}
