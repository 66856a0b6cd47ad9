use hadal::config::{parse_color, color_is_readable, ColorConfig, GeneralConfig, KeyConfig, LibraryConfig, UiConfig};

#[test]
fn test_parse_color_hex() {
    assert_eq!(parse_color("#FF0000"), Some((255, 0, 0)));
    assert_eq!(parse_color("#00FF00"), Some((0, 255, 0)));
    assert_eq!(parse_color("#0000FF"), Some((0, 0, 255)));
    assert_eq!(parse_color("#87CEEB"), Some((135, 206, 235)));
}

#[test]
fn test_parse_color_rgb() {
    assert_eq!(parse_color("rgb(255, 0, 0)"), Some((255, 0, 0)));
    assert_eq!(parse_color("rgb(0,255,0)"), Some((0, 255, 0)));
}

#[test]
fn test_parse_color_named() {
    assert_eq!(parse_color("white"), Some((255, 255, 255)));
    assert_eq!(parse_color("BLACK"), Some((0, 0, 0)));
}

#[test]
fn test_default_config() {
    let ui = UiConfig::default();
    assert!(!ui.colors.primary.is_empty());
    assert!(!ui.colors.text.is_empty());
}

#[test]
fn parse_color_trims_and_lowercases_hex() {
    assert_eq!(parse_color("  #87ceeb  "), Some((135, 206, 235)));
    assert_eq!(parse_color("#+F+F+F"), Some((15, 15, 15)));
}

#[test]
fn parse_color_bad_hex_gives_none_without_falling_back() {
    assert_eq!(parse_color("#GG0000"), None);
    assert_eq!(parse_color("#12345"), None);
    assert_eq!(parse_color("#é1234"), None);
}

#[test]
fn parse_color_rgb_edge_cases() {
    assert_eq!(parse_color("rgb( 1 , 2 , 3 )"), Some((1, 2, 3)));
    assert_eq!(parse_color("rgb(256,0,0)"), None);
    assert_eq!(parse_color("rgb(1,2)"), None);
    assert_eq!(parse_color("rgb(1,2,3,4)"), None);
    assert_eq!(parse_color("rgb(+1,2,3)"), Some((1, 2, 3)));
}

#[test]
fn parse_color_all_names() {
    assert_eq!(parse_color("Red"), Some((255, 0, 0)));
    assert_eq!(parse_color("green"), Some((0, 255, 0)));
    assert_eq!(parse_color("blue"), Some((0, 0, 255)));
    assert_eq!(parse_color("yellow"), Some((255, 255, 0)));
    assert_eq!(parse_color("cyan"), Some((0, 255, 255)));
    assert_eq!(parse_color("magenta"), Some((255, 0, 255)));
    assert_eq!(parse_color("grey"), Some((128, 128, 128)));
    assert_eq!(parse_color("LightGray"), Some((192, 192, 192)));
    assert_eq!(parse_color("darkgrey"), Some((64, 64, 64)));
    assert_eq!(parse_color("purple"), None);
    assert_eq!(parse_color(""), None);
}

#[test]
fn color_readability() {
    assert!(color_is_readable("#FF0000"));
    assert!(color_is_readable("#é1234"));
    assert!(!color_is_readable("#aé€"));
    assert!(color_is_readable("white"));
}

#[test]
fn default_colors_and_keys() {
    let c = ColorConfig::default();
    assert_eq!(c.primary, "#87CEEB");
    assert_eq!(c.eq_negative, "#EF4444");
    assert_eq!(parse_color(&c.secondary), Some((0x4A, 0x55, 0x68)));
    let k = KeyConfig::default();
    assert_eq!(k.play_pause, "space");
    assert_eq!(k.goto_visualizer, "v");
    let g = GeneralConfig::default();
    assert_eq!(g.log_level, "info");
    assert!(g.notifications && !g.check_updates);
}

#[test]
fn library_config_from_music_dir() {
    let l = LibraryConfig::from_music_dir("/home/u/Music".to_string());
    assert_eq!(l.music_dirs, vec!["/home/u/Music".to_string()]);
    assert_eq!(l.extensions.len(), 10);
    assert_eq!(l.ignore_patterns, vec![".*".to_string(), "_*".to_string()]);
    let e = LibraryConfig::from_music_dir(String::new());
    assert!(e.music_dirs.is_empty());
    let d = LibraryConfig::default();
    assert!(d.music_dirs.len() <= 1);
}
