use nice_colors::frac::Frac;
use nice_colors::{Color, DecimalValue};
use std::str::FromStr;

#[test]
fn color_blends() {
    let a = Color { red: 0, green: 0, blue: 0 };
    let b = Color { red: 100, green: 100, blue: 100 };

    assert_eq!(a.blend(b, Frac::new(1, 2)), Color { red: 50, green: 50, blue: 50 });
    assert_eq!(a.blend(b, Frac::new(1, 1)), Color { red: 100, green: 100, blue: 100 });
    assert_eq!(a.blend(b, Frac::new(-100, 1)), Color { red: 0, green: 0, blue: 0 });
    assert_eq!(a.blend(b, Frac::new(100, 1)), Color { red: 100, green: 100, blue: 100 });
}

#[test]
fn lib_blends() {
    let a = Color::new(0, 0, 0);
    let b = Color::new(100, 100, 100);

    assert_eq!(a.blend(b, Frac::new(1, 2)), Color::new(50, 50, 50));
    assert_eq!(a.blend(b, Frac::new(1, 1)), Color::new(100, 100, 100));
    assert_eq!(a.blend(b, Frac::new(-100, 1)), Color::new(0, 0, 0));
    assert_eq!(a.blend(b, Frac::new(100, 1)), Color::new(100, 100, 100));
}

#[test]
fn blend_endpoints_are_exact() {
    let a = Color::new(13, 77, 201);
    let b = Color::new(250, 3, 99);

    assert_eq!(a.blend(b, Frac::new(0, 1)), a);
    assert_eq!(a.blend(b, Frac::new(1, 1)), b);
    assert_eq!(a.blend(b, Frac::new(-7, 3)), a);
    assert_eq!(a.blend(b, Frac::new(9, 2)), b);
}

#[test]
fn darkens_and_lightens() {
    let red = Color::new(255, 0, 0);

    assert_eq!(red.darken(Frac::new(1, 2)), Color::new(128, 0, 0));
    assert_eq!(red.lighten(Frac::new(1, 2)), Color::new(255, 128, 128));
    assert_eq!(red.darken(Frac::new(1, 1)), Color::new(0, 0, 0));
    assert_eq!(red.lighten(Frac::new(1, 1)), Color::new(255, 255, 255));
}

#[test]
fn color_converts_to_string() {
    let red = Color { red: 255, green: 0, blue: 0 };

    assert_eq!(red.to_string(), "FF0000");
}

#[test]
fn lib_converts_to_string() {
    let red = Color::new(255, 0, 0);

    assert_eq!(red.to_string(), "FF0000");
}

#[test]
fn color_converts_to_hex() {
    let red = Color { red: 255, green: 0, blue: 0 };

    assert_eq!(red.to_hex_string(), "FF0000");
}

#[test]
fn lib_converts_to_hex() {
    let red = Color::new(255, 0, 0);

    assert_eq!(red.to_hex(), "FF0000");
}

#[test]
fn color_converts_to_rgb() {
    let red = Color { red: 255, green: 0, blue: 0 };

    assert_eq!(red.to_rgb_string(), "rgb(255,0,0)");
}

#[test]
fn lib_converts_to_rgb() {
    let red = Color::new(255, 0, 0);

    assert_eq!(red.to_rgb(), "rgb(255,0,0)");
}

#[test]
fn converts_to_rgba_string() {
    assert_eq!(Color::new(255, 0, 0).to_rgba_string(Frac::new(1, 2)), "rgba(255,0,0,0.5)");
    assert_eq!(Color::new(255, 0, 0).to_rgba(Frac::new(1, 2)), "rgba(255,0,0,0.5)");
    assert_eq!(Color::new(1, 22, 240).to_rgba_string(Frac::new(1, 4)), "rgba(1,22,240,0.25)");
    assert_eq!(Color::new(0, 0, 0).to_rgba_string(Frac::new(1, 3)), "rgba(0,0,0,0.333)");
    assert_eq!(Color::new(0, 0, 0).to_rgba_string(Frac::new(1, 1)), "rgba(0,0,0,1)");
    // out-of-range alpha values clamp at format time
    assert_eq!(Color::new(0, 0, 0).to_rgba_string(Frac::new(7, 2)), "rgba(0,0,0,1)");
    assert_eq!(Color::new(0, 0, 0).to_rgba_string(Frac::new(-1, 2)), "rgba(0,0,0,0)");
}

#[test]
fn color_converts_from_hex() {
    let red = Color { red: 255, green: 0, blue: 0 };

    assert_eq!(Color::from_hex_str("FF0000").unwrap(), red);
    assert_eq!(Color::from_hex_str("F00").unwrap(), red);
}

#[test]
fn lib_converts_from_hex() {
    let red = Color::new(255, 0, 0);

    assert_eq!(Color::from_hex("FF0000").unwrap(), red);
    assert_eq!(Color::from_hex("F00").unwrap(), red);
}

#[test]
fn color_converts_from_slice() {
    let color = Color::from([255, 0, 0]);

    assert_eq!(color, Color { red: 255, green: 0, blue: 0 });
}

#[test]
fn lib_converts_from_slice() {
    let color = Color::from([255, 0, 0]);

    assert_eq!(color, Color::new(255, 0, 0));
}

#[test]
fn converts_from_str_errors_when_hash_symbol_is_not_present() {
    assert!("FF0000".parse::<Color>().is_err());
}

#[test]
fn color_converts_from_str() {
    let color = "#FF0000".parse::<Color>().unwrap();

    assert_eq!(color, Color { red: 255, green: 0, blue: 0 });
}

#[test]
fn converts_from_str_with_pound_symbol() {
    let color = Color::from_str("#FF0000").unwrap();

    assert_eq!(color, Color::new(255, 0, 0));
}

#[test]
fn converts_from_str_800080() {
    let color = "#800080".parse::<Color>().unwrap();

    assert_eq!(color, Color { red: 128, green: 0, blue: 128 });
}

#[test]
fn color_converts_to_decimal() {
    let color = Color { red: 100, green: 100, blue: 100 };

    assert_eq!(color.to_decimal(), 6579300);
}

#[test]
fn lib_converts_to_decimal() {
    let color = Color::new(100, 100, 100);

    assert_eq!(color.to_decimal(), 6579300);
}

#[test]
fn color_converts_from_decimal() {
    let color = Color::from_decimal(6579300);

    assert_eq!(color, Color { red: 100, green: 100, blue: 100 });
}

#[test]
fn lib_converts_from_decimal() {
    let color = Color::from_decimal(6579300);

    assert_eq!(color, Color::new(100, 100, 100));
}

#[test]
fn color_converts_to_from_decimal() {
    let color = Color { red: 100, green: 100, blue: 100 };
    let decimal = color.to_decimal();
    let color = Color::from_decimal(decimal);

    assert_eq!(color, Color { red: 100, green: 100, blue: 100 });
}

#[test]
fn lib_converts_to_from_decimal() {
    let color = Color::new(100, 100, 100);
    let decimal = color.to_decimal();
    let color = Color::from_decimal(decimal);

    assert_eq!(color, Color::new(100, 100, 100));
}

#[test]
fn decimal_round_trips_on_every_channel_extreme() {
    for &c in &[
        Color::new(0, 0, 0),
        Color::new(255, 0, 0),
        Color::new(0, 255, 0),
        Color::new(0, 0, 255),
        Color::new(255, 255, 255),
        Color::new(1, 2, 3),
        Color::new(200, 100, 50),
    ] {
        assert_eq!(Color::from_decimal(c.to_decimal()), c);
    }
}

#[test]
fn decimal_top_byte_is_ignored() {
    assert_eq!(Color::from_decimal(0xFF000000 | 6579300), Color::new(100, 100, 100));
}

#[test]
fn converts_to_decimal_into() {
    let color = Color { red: 100, green: 100, blue: 100 };
    let decimal: DecimalValue = color.into();

    assert_eq!(decimal, 6579300);
}

#[test]
fn converts_to_i32() {
    let color = Color::new(100, 100, 100);
    let decimal: DecimalValue = color.into();

    assert_eq!(decimal, 6579300);
}

#[test]
fn converts_from_decimal_value_into_color() {
    let color: Color = 6579300u32.into();

    assert_eq!(color, Color::new(100, 100, 100));
}

#[test]
fn maps_channels() {
    let red = Color::new(255, 0, 0);
    let mapped = red.map(|c| c / 2);

    assert_eq!(mapped, Color::new(127, 0, 0));
}

#[test]
fn maps_channels_with_other() {
    let red = Color { red: 255, green: 0, blue: 0 };
    let blue = Color { red: 0, green: 0, blue: 255 };
    let mapped = red.map_with(blue, |a, b| if a > b { a } else { b });

    assert_eq!(mapped, Color { red: 255, green: 0, blue: 255 });
}

#[test]
fn converts_to_arrays_and_vectors() {
    let c = Color::new(9, 8, 7);

    assert_eq!(c.to_array(), [9, 8, 7]);
    assert_eq!(c.to_bytes(), [9, 8, 7]);
    assert_eq!(c.to_vec(), vec![9, 8, 7]);
    assert_eq!(Color::from_slice([9, 8, 7]), c);
}

#[test]
fn default_color_is_black() {
    assert_eq!(Color::default(), Color::new(0, 0, 0));
}

#[test]
fn fraction_values_compare_by_value() {
    assert!(Frac::new(1, 2).same_value(&Frac::new(5, 10)));
    assert!(!Frac::new(1, 2).same_value(&Frac::new(2, 10)));
    assert!(Frac::new(-3, 6).same_value(&Frac::new(-1, 2)));
}
