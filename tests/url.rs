use kitty_cat::config::{Alignment, Config, Dimensions, Filter, ImageType, Kind, Rgb, Says};
use kitty_cat::get::{custom_filter_params, get_url, CustomValue};
use kitty_cat::text::{decimal_string, join_strings, two_digit_string};

fn bare() -> Config {
    Config::default()
}

fn with_tags(tags: &[&str]) -> Config {
    let mut c = bare();
    c.tags = Some(tags.iter().map(|t| t.to_string()).collect());
    c
}

fn filter(kind: Kind) -> Filter {
    Filter {
        kind: Some(kind),
        brightness: None,
        lightness: None,
        saturation: None,
        hue: None,
        rgb: None,
    }
}

#[test]
fn empty_config_gives_endpoint_and_bare_question_mark() {
    assert_eq!(get_url(&bare()), "https://cataas.com/cat?");
}

#[test]
fn same_config_gives_same_url() {
    let mut c = with_tags(&["cute", "orange"]);
    c.image_type = Some(ImageType::Medium);
    assert_eq!(get_url(&c), get_url(&c.clone()));
}

#[test]
fn no_tags_add_no_segment() {
    assert_eq!(get_url(&with_tags(&[])), "https://cataas.com/cat?");
}

#[test]
fn one_tag_is_a_segment() {
    let url = get_url(&with_tags(&["a"]));
    assert!(url.contains("/a"));
    assert_eq!(url, "https://cataas.com/cat/a?");
}

#[test]
fn tags_are_comma_joined_in_order() {
    let url = get_url(&with_tags(&["a", "b"]));
    assert!(url.contains("/a,b"));
    assert_eq!(url, "https://cataas.com/cat/a,b?");
    assert_eq!(get_url(&with_tags(&["b", "a", "c"])), "https://cataas.com/cat/b,a,c?");
}

#[test]
fn caption_with_size_and_no_color() {
    let mut c = bare();
    c.says = Some(Says { sentence: "hi".to_string(), size: Some(20), color: None });
    let url = get_url(&c);
    assert!(url.contains("says/hi"));
    assert!(url.contains("fontSize=20"));
    assert!(!url.contains("fontColor"));
    assert_eq!(url, "https://cataas.com/catsays/hi?fontSize=20");
}

#[test]
fn caption_with_color_and_tags() {
    let mut c = with_tags(&["a"]);
    c.says = Some(Says {
        sentence: "hello there".to_string(),
        size: None,
        color: Some("red".to_string()),
    });
    assert_eq!(get_url(&c), "https://cataas.com/cat/a/says/hello there?fontColor=red");
}

#[test]
fn mono_filter_sends_no_adjustments() {
    let mut f = filter(Kind::Mono);
    f.brightness = Some("0.5".to_string());
    f.hue = Some("3".to_string());
    f.rgb = Some(Rgb { r: Some(1), g: Some(2), b: Some(3) });
    let mut c = bare();
    c.filter = Some(f);
    let url = get_url(&c);
    assert!(url.contains("filter=mono"));
    assert!(!url.contains("brightness"));
    assert!(!url.contains("r=1"));
    assert_eq!(url, "https://cataas.com/cat?filter=mono");
}

#[test]
fn custom_filter_sends_present_adjustments() {
    let mut f = filter(Kind::Custom);
    f.brightness = Some(0.5f32.to_string());
    f.rgb = Some(Rgb { r: Some(10), g: None, b: None });
    let mut c = bare();
    c.filter = Some(f);
    let url = get_url(&c);
    assert!(url.contains("filter=custom&brightness=0.5&r=10"));
    for absent in ["g=", "b=", "lightness", "saturation", "hue"] {
        assert!(!url.contains(absent), "{absent} in {url}");
    }
    assert_eq!(url, "https://cataas.com/cat?filter=custom&brightness=0.5&r=10");
}

#[test]
fn custom_filter_keeps_field_order() {
    let f = Filter {
        kind: Some(Kind::Custom),
        brightness: Some("1".to_string()),
        lightness: Some("2".to_string()),
        saturation: Some("3".to_string()),
        hue: Some("4".to_string()),
        rgb: Some(Rgb { r: Some(0), g: Some(128), b: Some(255) }),
    };
    let mut c = bare();
    c.filter = Some(f);
    assert_eq!(
        get_url(&c),
        "https://cataas.com/cat?filter=custom&brightness=1&lightness=2&saturation=3&hue=4&r=0&g=128&b=255"
    );
}

#[test]
fn filter_without_kind_sends_nothing() {
    let mut f = filter(Kind::Negate);
    f.kind = None;
    let mut c = bare();
    c.filter = Some(f);
    assert_eq!(get_url(&c), "https://cataas.com/cat?");
}

#[test]
fn type_and_dimensions_come_last() {
    let mut c = bare();
    c.image_type = Some(ImageType::Square);
    c.dimensions = Some(Dimensions { height: 200, width: 300 });
    c.says = Some(Says { sentence: "x".to_string(), size: Some(9), color: Some("blue".to_string()) });
    c.filter = Some(filter(Kind::Negate));
    assert_eq!(
        get_url(&c),
        "https://cataas.com/catsays/x?fontSize=9&fontColor=blue&filter=negate&type=square&height=200&width=300"
    );
}

#[test]
fn dimensions_alone() {
    let mut c = bare();
    c.dimensions = Some(Dimensions { height: 0, width: 4294967295 });
    assert_eq!(get_url(&c), "https://cataas.com/cat?height=0&width=4294967295");
}

#[test]
fn enum_names() {
    assert_eq!(Kind::Mono.to_string(), "mono");
    assert_eq!(Kind::Negate.to_string(), "negate");
    assert_eq!(Kind::Custom.to_string(), "custom");
    assert_eq!(ImageType::Xsmall.to_string(), "xsmall");
    assert_eq!(ImageType::Small.to_string(), "small");
    assert_eq!(ImageType::Medium.to_string(), "medium");
    assert_eq!(ImageType::Square.to_string(), "square");
    assert!(Kind::Custom.is_custom());
    assert!(!Kind::Mono.is_custom());
    assert!(!Kind::Negate.is_custom());
}

#[test]
fn alignment_names_and_default() {
    let mut c = bare();
    assert!(!c.offline);
    assert!(!c.cache);
    assert_eq!(c.alignment, Some(Alignment::Left));
    assert_eq!(c.alignment_to_string(), "left");
    c.alignment = Some(Alignment::Center);
    assert_eq!(c.alignment_to_string(), "center");
    c.alignment = Some(Alignment::Right);
    assert_eq!(c.alignment_to_string(), "right");
    c.alignment = None;
    assert_eq!(c.alignment_to_string(), "left");
}

#[test]
fn custom_params_only_for_present_values() {
    let mut params = vec!["filter=custom".to_string()];
    custom_filter_params(&mut params, "hue", None);
    custom_filter_params(&mut params, "hue", Some(CustomValue::Text(None)));
    custom_filter_params(&mut params, "r", Some(CustomValue::U8(None)));
    assert_eq!(params, vec!["filter=custom".to_string()]);
    custom_filter_params(&mut params, "g", Some(CustomValue::U8(Some(7))));
    custom_filter_params(&mut params, "hue", Some(CustomValue::Text(Some("-0.25".to_string()))));
    assert_eq!(params, vec!["filter=custom", "g=7", "hue=-0.25"]);
    assert_eq!(CustomValue::U8(Some(42)).to_string(), "42");
    assert_eq!(CustomValue::U8(None).to_string(), "");
}

#[test]
fn decimal_rendering() {
    assert_eq!(decimal_string(0), "0");
    assert_eq!(decimal_string(7), "7");
    assert_eq!(decimal_string(10), "10");
    assert_eq!(decimal_string(255), "255");
    assert_eq!(decimal_string(u32::MAX), "4294967295");
    assert_eq!(two_digit_string(5), "05");
    assert_eq!(two_digit_string(59), "59");
}

#[test]
fn joining_strings() {
    let parts: Vec<String> = vec!["x".to_string(), "".to_string(), "yz".to_string()];
    assert_eq!(join_strings(&parts, "&"), "x&&yz");
    assert_eq!(join_strings(&Vec::new(), ","), "");
    assert_eq!(join_strings(&vec!["solo".to_string()], ","), "solo");
}
