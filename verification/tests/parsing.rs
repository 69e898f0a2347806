use nice_colors::frac::Frac;
use nice_colors::html::{from_html_color_name, to_html_color_name};
use nice_colors::parse;
use nice_colors::text::remove_suffix;
use nice_colors::Color;

#[test]
fn remove_suffix_test() {
    assert_eq!(remove_suffix("hello", "world"), None);
    assert_eq!(remove_suffix("hello", "lo"), Some("hel"));
    assert_eq!(remove_suffix("hello", "llo"), Some("he"));
    assert_eq!(remove_suffix("hello", "hello"), Some(""));
    assert_eq!(remove_suffix("100%", "%"), Some("100"));
}

#[test]
fn parses_hsl() {
    let (color, alpha) = parse::hsl("hsl(0, 100%, 50%)").unwrap();
    assert_eq!(color, Color::new(255, 0, 0));
    assert!(alpha.same_value(&Frac::one()));

    let (color, alpha) = parse::hsl("hsl(120, 100%, 50%)").unwrap();
    assert_eq!(color, Color::new(0, 255, 0));
    assert!(alpha.same_value(&Frac::one()));
}

#[test]
fn parses_hsl_blue_and_fractional_forms() {
    assert_eq!(Color::from_hsl_str("hsl(240,100%,50%)").unwrap(), Color::new(0, 0, 255));
    assert_eq!(Color::from_hsl_str("hsl(240,1.0,0.5)"), None);
    assert_eq!(Color::from_hsl_str("hsl(240,0.999999999,0.5)").unwrap(), Color::new(0, 0, 255));
    assert_eq!(Color::from_hsl_str("hsl(240,.5,.5)").unwrap(), Color::new(64, 64, 191));
}

#[test]
fn parses_hsla_alpha() {
    let (color, alpha) = Color::from_hsla_str("hsla(0,100%,50%,50%)").unwrap();
    assert_eq!(color, Color::new(255, 0, 0));
    assert!(alpha.same_value(&Frac::new(1, 2)));

    let (color, alpha) = Color::from_hsla_str("hsla(0,100%,50%,0.25)").unwrap();
    assert_eq!(color, Color::new(255, 0, 0));
    assert!(alpha.same_value(&Frac::new(1, 4)));
}

#[test]
fn hsl_hue_wraps_around() {
    assert_eq!(
        Color::from_hsl_str("hsl(480,100%,50%)"),
        Color::from_hsl_str("hsl(120,100%,50%)"),
    );
    assert_eq!(
        Color::from_hsl_str("hsl(-120,100%,50%)"),
        Color::from_hsl_str("hsl(240,100%,50%)"),
    );
}

#[test]
fn hsl_rejects_malformed_fields() {
    assert_eq!(Color::from_hsl_str("hsl(0,100%)"), None);
    assert_eq!(Color::from_hsl_str("hsl(x,100%,50%)"), None);
    assert_eq!(Color::from_hsl_str("hsl(0,100,50%)"), None);
    assert_eq!(Color::from_hsl_str("hsl 0,100%,50%)"), None);
    assert_eq!(Color::from_hsl_str("hsl(0,100%,50%"), None);
    assert_eq!(Color::from_hsla_str("hsla(0,100%,50%,2)"), None);
}

#[test]
fn converts_hsl_to_rgb() {
    let c = nice_colors::hsl::hsl_to_rgb(0, Frac::new(1, 1), Frac::new(1, 2));

    assert_eq!(c.red, 255);
    assert_eq!(c.green, 0);
    assert_eq!(c.blue, 0);

    let (h, s, l) = nice_colors::hsl::rgb_to_hsl(c.red, c.green, c.blue);

    assert_eq!(h.num as f32 / h.den as f32, 0.0);
    assert_eq!(s.num as f32 / s.den as f32, 1.0);
    assert_eq!(l.num as f32 / l.den as f32, 0.5);
}

#[test]
fn converts_hsl_to_rgb_2() {
    let c = nice_colors::hsl::hsl_to_rgb(340, Frac::new(1, 2), Frac::new(1, 2));

    assert_eq!(c.red, 191);
    assert_eq!(c.green, 64);
    assert_eq!(c.blue, 106);
}

#[test]
fn converts_rgb_to_hsl() {
    let (hue, saturation, lightness) = nice_colors::hsl::rgb_to_hsl(255, 0, 0);

    assert_eq!(hue.num as f32 / hue.den as f32, 0.0);
    assert_eq!(saturation.num as f32 / saturation.den as f32, 1.0);
    assert_eq!(lightness.num as f32 / lightness.den as f32, 0.5);
}

#[test]
fn converts_rgb_to_hsl_periwinkle() {
    let (hue, saturation, lightness) = nice_colors::hsl::rgb_to_hsl(204, 204, 255);

    assert_eq!(hue.num as f32 / hue.den as f32, 240.0);
    assert_eq!(saturation.num as f32 / saturation.den as f32, 1.0);
    assert_eq!(lightness.num as f32 / lightness.den as f32, 0.9);
}

#[test]
fn hex_accepts_every_documented_shape() {
    let red = Color::new(255, 0, 0);

    assert_eq!(parse::hex("FF0000", false), Some(red));
    assert_eq!(parse::hex("#FF0000", false), Some(red));
    assert_eq!(parse::hex("F00", false), Some(red));
    assert_eq!(parse::hex("#F00", false), Some(red));
    assert_eq!(parse::hex("F00A", false), Some(red));
    assert_eq!(parse::hex("FF000080", false), Some(red));
    assert_eq!(parse::hex("ff0000", false), Some(red));
}

#[test]
fn hex_requires_hash_only_when_asked() {
    let red = Color::new(255, 0, 0);

    assert_eq!(parse::hex("FF0000", true), None);
    assert_eq!(parse::hex("#FF0000", true), Some(red));
}

#[test]
fn hex_rejects_bad_lengths_and_digits() {
    assert_eq!(parse::hex("12345", false), None);
    assert_eq!(parse::hex("", false), None);
    assert_eq!(parse::hex("#", false), None);
    assert_eq!(parse::hex("GG0000", false), None);
    // a malformed alpha component invalidates the whole string
    assert_eq!(parse::hex("F00X", false), None);
    assert_eq!(parse::hex("FF0000ZZ", false), None);
}

#[test]
fn hex_round_trips_through_formatting() {
    for &c in &[
        Color::new(0, 0, 0),
        Color::new(255, 255, 255),
        Color::new(1, 2, 3),
        Color::new(171, 205, 239),
    ] {
        assert_eq!(parse::hex(&c.to_hex_string(), false), Some(c));
    }
}

#[test]
fn color_converts_from_rgb() {
    let color = Color::from_rgb_str("rgb(100,100,100)").unwrap();

    assert_eq!(color, Color { red: 100, green: 100, blue: 100 });

    let color = Color::from_rgb_str("rgb( 100, 100, 100 )").unwrap();

    assert_eq!(color, Color { red: 100, green: 100, blue: 100 });

    let color = Color::from_rgb_str("rgba( 100, 100, 100, 1.0 )").unwrap();

    assert_eq!(color, Color { red: 100, green: 100, blue: 100 });
}

#[test]
fn lib_converts_from_rgb() {
    let color = Color::from_rgb("rgb(100,100,100)").unwrap();

    assert_eq!(color, Color::new(100, 100, 100));

    let color = Color::from_rgb("rgb( 100, 100, 100 )").unwrap();

    assert_eq!(color, Color::new(100, 100, 100));

    let color = Color::from_rgb("rgba( 100, 100, 100, 1.0 )").unwrap();

    assert_eq!(color, Color::new(100, 100, 100));
}

#[test]
fn color_converts_from_rgba() {
    let (color, alpha) = Color::from_rgba_str("rgba(100,100,100,0.5)").unwrap();

    assert_eq!(color, Color { red: 100, green: 100, blue: 100 });
    assert!(alpha.same_value(&Frac::new(1, 2)));

    let (color, alpha) = Color::from_rgba_str("rgba(255,0,0,0.2)").unwrap();

    assert_eq!(color, Color { red: 255, green: 0, blue: 0 });
    assert!(alpha.same_value(&Frac::new(1, 5)));
}

#[test]
fn lib_converts_from_rgba() {
    let (color, alpha) = Color::from_rgba("rgba(100,100,100,0.5)").unwrap();

    assert_eq!(color, Color::new(100, 100, 100));
    assert!(alpha.same_value(&Frac::new(1, 2)));

    let (color, alpha) = Color::from_rgba("rgba(255,0,0,0.2)").unwrap();

    assert_eq!(color, Color::new(255, 0, 0));
    assert!(alpha.same_value(&Frac::new(1, 5)));
}

#[test]
fn rgba_alpha_accepts_byte_values() {
    let (_, alpha) = Color::from_rgba_str("rgba(1,2,3,255)").unwrap();
    assert!(alpha.same_value(&Frac::one()));

    let (_, alpha) = Color::from_rgba_str("rgba(1,2,3,51)").unwrap();
    assert!(alpha.same_value(&Frac::new(1, 5)));

    // a value that does not read as a byte falls back to the decimal form
    let (_, alpha) = Color::from_rgba_str("rgba(1,2,3,300)").unwrap();
    assert!(alpha.same_value(&Frac::new(300, 1)));
}

#[test]
fn rgb_channels_wrap_above_255() {
    assert_eq!(Color::from_rgb_str("rgb(300,0,0)").unwrap(), Color::new(44, 0, 0));
    assert_eq!(Color::from_rgb_str("rgb(256,257,511)").unwrap(), Color::new(0, 1, 255));
}

#[test]
fn rgb_negative_channels_read_as_zero() {
    assert_eq!(Color::from_rgb_str("rgb(-5,10,20)").unwrap(), Color::new(0, 10, 20));
    assert_eq!(Color::from_rgb_str("rgb(-x,10,20)"), None);
}

#[test]
fn rgb_channels_accept_percentages() {
    assert_eq!(Color::from_rgb_str("rgb(100%,0%,50%)").unwrap(), Color::new(255, 0, 128));
}

#[test]
fn rgb_rejects_wrong_field_counts() {
    assert_eq!(Color::from_rgb_str("rgb(1,2)"), None);
    assert_eq!(Color::from_rgb_str("rgb(1,2,3,4)"), None);
    assert_eq!(Color::from_rgb_str("rgba(1,2,3)"), None);
    assert_eq!(Color::from_rgb_str("rgba(1,2,3,4,5)"), None);
    assert_eq!(Color::from_rgb_str("rgb(1,2,3"), None);
    assert_eq!(Color::from_rgb_str("rgb 1,2,3)"), None);
    assert_eq!(Color::from_rgba_str("rgba(1,2,3,x)"), None);
}

#[test]
fn whitespace_between_fields_does_not_matter() {
    assert_eq!(
        Color::from_rgba_str("rgb(100,100,100)"),
        Color::from_rgba_str("rgb( 100, 100, 100 )"),
    );
    assert_eq!(
        Color::from_rgba_str("rgb(100,100,100)"),
        Color::from_rgba_str("rgb(100 100 100)"),
    );
}

#[test]
fn parses_named_colors() {
    assert_eq!(from_html_color_name("red"), Some(Color::new(255, 0, 0)));
    assert_eq!(from_html_color_name("RED"), Some(Color::new(255, 0, 0)));
    assert_eq!(from_html_color_name("CornflowerBlue"), Some(Color::new(100, 149, 237)));
    assert_eq!(from_html_color_name("rebeccapurple"), Some(Color::new(102, 51, 153)));
    assert_eq!(from_html_color_name("not a color"), None);
}

#[test]
fn names_colors() {
    assert_eq!(to_html_color_name(&Color::new(255, 0, 0)), Some("red"));
    assert_eq!(to_html_color_name(&Color::new(100, 149, 237)), Some("cornflowerblue"));
    assert_eq!(to_html_color_name(&Color::new(1, 2, 3)), None);
}

#[test]
fn generic_parser_tries_every_grammar() {
    assert_eq!(Color::parse_any("#FF0000"), Some(Color::new(255, 0, 0)));
    assert_eq!(Color::parse_any("rgb(1,2,3)"), Some(Color::new(1, 2, 3)));
    assert_eq!(Color::parse_any("hsl(120,100%,50%)"), Some(Color::new(0, 255, 0)));
    assert_eq!(Color::parse_any("teal"), Some(Color::new(0, 128, 128)));
    assert_eq!(Color::parse_any("FF0000"), None);
    assert_eq!(Color::parse_any(""), None);
}

#[test]
fn parses_percentages() {
    let p = parse::parse_percent("50%").unwrap();
    assert!(p.same_value(&Frac::new(1, 2)));

    let p = parse::parse_percent("0.25").unwrap();
    assert!(p.same_value(&Frac::new(1, 4)));

    let p = parse::parse_percent(".2").unwrap();
    assert!(p.same_value(&Frac::new(1, 5)));

    // percentages clamp into [0, 1]
    let p = parse::parse_percent("150%").unwrap();
    assert!(p.same_value(&Frac::one()));
    let p = parse::parse_percent("-50%").unwrap();
    assert!(p.same_value(&Frac::zero()));

    // a bare decimal needs its leading `0.` or `.`
    assert!(parse::parse_percent("50").is_none());
    assert!(parse::parse_percent("1.0").is_none());
    assert!(parse::parse_percent("x%").is_none());
}
