use fractal_engine::colors::{
    color_for_value, hue_to_rgb, iterations_as_hue_to_rgb, ColorRange, Direction, HslColor,
    HslRange, RgbColor, RgbRange, DEFAULT_HUE, DEFAULT_LIGHTNESS, DEFAULT_SATURATION, HUE_RANGE,
};
use fractal_engine::{ColorCfg, Fixed};

fn half() -> Fixed {
    Fixed::from_ratio(1, 2)
}

#[test]
fn test_hsl_to_rgb() {
    let sat = Fixed::from_raw(DEFAULT_SATURATION);
    let light = Fixed::from_raw(DEFAULT_LIGHTNESS);
    let color = HslColor::new(Fixed::from_int(0), sat, light);
    assert_eq!(color.to_rgb().to_string().as_str(), "#FF0000");
    let color = HslColor::new(Fixed::from_int(60), sat, light);
    assert_eq!(color.to_rgb().to_string().as_str(), "#FFFF00");
    let color = HslColor::new(Fixed::from_int(120), sat, light);
    assert_eq!(color.to_rgb().to_string().as_str(), "#00FF00");
    let color = HslColor::new(Fixed::from_int(180), sat, light);
    assert_eq!(color.to_rgb().to_string().as_str(), "#00FFFF");
    let color = HslColor::new(Fixed::from_int(240), sat, light);
    assert_eq!(color.to_rgb().to_string().as_str(), "#0000FF");
    let color = HslColor::new(Fixed::from_int(300), sat, light);
    assert_eq!(color.to_rgb().to_string().as_str(), "#FF00FF");
    let color = HslColor::new(Fixed::from_int(360), sat, light);
    assert_eq!(color.to_rgb().to_string().as_str(), "#FF0000");
    let color = HslColor::new(Fixed::from_int(340), sat, light);
    assert_eq!(color.to_rgb().to_string().as_str(), "#FF0055");
}

#[test]
fn test_iterations_as_hue_to_rgb() {
    assert_eq!(hue_to_rgb(Fixed::from_int(0)), "#FF0000");
    assert_eq!(hue_to_rgb(Fixed::from_int(60)), "#FFFF00");
    assert_eq!(hue_to_rgb(Fixed::from_int(120)), "#00FF00");
    assert_eq!(hue_to_rgb(Fixed::from_int(180)), "#00FFFF");
    assert_eq!(hue_to_rgb(Fixed::from_int(240)), "#0000FF");
    assert_eq!(hue_to_rgb(Fixed::from_int(300)), "#FF00FF");
    assert_eq!(hue_to_rgb(Fixed::from_int(360)), "#FF0000");
    assert_eq!(hue_to_rgb(Fixed::from_int(340)), "#FF0055");
}

#[test]
fn test_hsl_range() {
    let range = HslRange::default();
    assert_eq!(range.start().hue(), Fixed::from_raw(DEFAULT_HUE));
    assert_eq!(range.start().saturation(), Fixed::from_raw(DEFAULT_SATURATION));
    assert_eq!(range.start().lightness(), Fixed::from_raw(DEFAULT_LIGHTNESS));
    assert_eq!(range.end().hue(), Fixed::from_raw(DEFAULT_HUE + HUE_RANGE));
    assert_eq!(range.end().saturation(), Fixed::from_raw(DEFAULT_SATURATION));
    assert_eq!(range.end().lightness(), Fixed::from_raw(DEFAULT_LIGHTNESS));
    assert_eq!(range.dir(), Direction::Positive);

    let color = range.percent_of(half());
    assert_eq!(color.hue(), Fixed::from_int(150));
    assert_eq!(color.saturation(), Fixed::from_raw(DEFAULT_SATURATION));
    assert_eq!(color.lightness(), Fixed::from_raw(DEFAULT_LIGHTNESS));
}

#[test]
fn rgb_range_walks_midway() {
    let range = RgbRange::new(RgbColor::new(0, 0, 0), RgbColor::new(255, 255, 255));
    let mid = range.percent_of(half());
    assert_eq!(mid, RgbColor::new(127, 127, 127));
    assert_eq!(range.percent_of(Fixed::from_int(0)), RgbColor::new(0, 0, 0));
    assert_eq!(range.percent_of(Fixed::from_int(1)), RgbColor::new(255, 255, 255));
}

#[test]
fn rgb_range_negative_direction_wraps() {
    // Walking from 10 to 250 the other way crosses the 256 boundary:
    // 10 + 256 = 266, half way back to 250 is 258, and 258 mod 256 = 2.
    let range = RgbRange::new_with_dir(
        RgbColor::new(10, 10, 10),
        RgbColor::new(250, 250, 250),
        Direction::Negative,
    );
    let mid = range.percent_of(half());
    assert_eq!(mid, RgbColor::new(2, 2, 2));
}

#[test]
fn rgb_to_string_pads_channels() {
    assert_eq!(RgbColor::new(1, 2, 3).to_string(), "#010203");
    assert_eq!(RgbColor::new(255, 0, 171).to_string(), "#FF00AB");
}

#[test]
fn iteration_values_map_to_hues() {
    // Value zero sits at the start of the sweep: pure red.
    assert_eq!(iterations_as_hue_to_rgb(0, 400), "#FF0000");
    // Values at or past the cap paint the background.
    assert_eq!(color_for_value(399, 400), "#000000");
    assert_eq!(color_for_value(400, 400), "#000000");
    assert_eq!(color_for_value(0, 400), "#FF0000");
}

#[test]
fn color_cfg_lookup() {
    let cfg = ColorCfg::default();
    let hit = cfg.get(&String::from("default"));
    assert!(matches!(hit, Some(ColorRange::Hsl(_))));
    assert!(cfg.get(&String::from("missing")).is_none());
    let empty = ColorCfg::new();
    assert!(empty.get(&String::from("default")).is_none());
}
