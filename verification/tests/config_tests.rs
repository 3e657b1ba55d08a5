//! Configuration type tests.

use open_sesame::{Color, Config, Error};

#[test]
fn test_color_hex_parse() {
    let c = Color::from_hex("#ff0000").unwrap();
    assert_eq!(c, Color::new(255, 0, 0, 255));

    let c = Color::from_hex("#00ff00ff").unwrap();
    assert_eq!(c, Color::new(0, 255, 0, 255));

    let c = Color::from_hex("63a4ffb4").unwrap();
    assert_eq!(c, Color::new(99, 164, 255, 180));
}

#[test]
fn test_color_hex_roundtrip() {
    let c = Color::new(99, 164, 255, 180);
    assert_eq!(c.to_hex(), "#63a4ffb4");
    assert_eq!(Color::from_hex(&c.to_hex()).unwrap(), c);
}

#[test]
fn test_color_hex_invalid() {
    match Color::from_hex("#abc") {
        Err(Error::InvalidColor { value }) => assert_eq!(value, "abc"),
        other => panic!("expected an invalid-color error, got {:?}", other),
    }
    match Color::from_hex("zzzzzz") {
        Err(Error::InvalidColor { value }) => assert_eq!(value, "zzzzzz"),
        other => panic!("expected an invalid-color error, got {:?}", other),
    }
}

#[test]
fn test_default_config() {
    let config = Config::default();
    assert!(!config.keys.is_empty());
    assert_eq!(config.settings.activation_delay, 200);
}

#[test]
fn test_key_for_app() {
    let config = Config::default();
    assert_eq!(config.key_for_app("ghostty"), Some('g'));
    assert_eq!(config.key_for_app("com.mitchellh.ghostty"), Some('g'));
    assert_eq!(config.key_for_app("Ghostty"), Some('g'));
    assert_eq!(config.key_for_app("unknown-app"), None);
}

#[test]
fn test_launch_config_simple() {
    let config = Config::default();
    let launch = config.launch_config("g").unwrap();
    assert_eq!(launch.command(), "ghostty");
    assert!(launch.args().is_empty());
}
