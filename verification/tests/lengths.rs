use retina_style_core::cascade::Cascade;
use retina_style_core::collect::CollectedStyles;
use retina_style_core::dom::{Element, NodeKind};
use retina_style_core::lengths::{f32_bits_of_u32, parse_pixel_length};
use retina_style_core::style::{CssLength, CssNumber};

#[test]
fn pixel_lengths_follow_the_html_integer_rules() {
    assert_eq!(parse_pixel_length("12"), Some(12));
    assert_eq!(parse_pixel_length("  \t+7px"), Some(7));
    assert_eq!(parse_pixel_length("0010"), Some(10));
    assert_eq!(parse_pixel_length("-0"), Some(0));
    assert_eq!(parse_pixel_length("-3"), None);
    assert_eq!(parse_pixel_length(""), None);
    assert_eq!(parse_pixel_length("   "), None);
    assert_eq!(parse_pixel_length("+"), None);
    assert_eq!(parse_pixel_length("abc"), None);
    assert_eq!(parse_pixel_length("4294967295"), Some(u32::MAX));
    assert_eq!(parse_pixel_length("4294967296"), None);
    assert_eq!(parse_pixel_length("99999999999999999999"), None);
}

#[test]
fn pixel_counts_become_the_nearest_single_precision_number() {
    for n in 0..200_000u32 {
        assert_eq!(f32_bits_of_u32(n), (n as f32).to_bits(), "{n}");
    }
    for n in [16_777_215u32, 16_777_216, 16_777_217, 16_777_218, 16_777_219, 33_554_435, 2_147_483_647, u32::MAX] {
        assert_eq!(f32_bits_of_u32(n), (n as f32).to_bits(), "{n}");
    }
    let mut n: u32 = 1;
    while n < u32::MAX / 3 {
        assert_eq!(f32_bits_of_u32(n), (n as f32).to_bits(), "{n}");
        n = n * 3 + 1;
    }
}

fn px(value: f32) -> Option<CssLength> {
    Some(CssLength::Pixels(CssNumber { bits: value.to_bits() }))
}

#[test]
fn body_margins_come_from_its_attributes() {
    let mut body = Element::new("body".to_string());
    body.attributes.push("marginheight".to_string(), "20".to_string());
    body.attributes.push("topmargin".to_string(), "5".to_string());
    body.attributes.push("leftmargin".to_string(), "3".to_string());
    body.attributes.push("rightmargin".to_string(), "oops".to_string());
    let map = CollectedStyles::new().cascade(Some(&NodeKind::Element(body)), None);
    assert_eq!(map.margin_top, px(20.0));
    assert_eq!(map.margin_bottom, px(20.0));
    assert_eq!(map.margin_left, px(3.0));
    assert_eq!(map.margin_right, px(8.0));

    let mut quirk = Element::new("body".to_string());
    quirk.attributes.push("marginwidth".to_string(), "x".to_string());
    quirk.attributes.push("leftmargin".to_string(), "4".to_string());
    let map = CollectedStyles::new().cascade(Some(&NodeKind::Element(quirk)), None);
    assert_eq!(map.margin_left, px(8.0));

    let map = CollectedStyles::new().cascade(Some(&NodeKind::Element(Element::new("p".to_string()))), None);
    assert_eq!(map.margin_top, None);
}
