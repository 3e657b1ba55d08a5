//! Error classification tests.

use open_sesame::Error;

#[test]
fn test_is_recoverable() {
    assert!(Error::WindowNotFound {
        identifier: "w".to_string()
    }
    .is_recoverable());
    assert!(Error::ConfigValidation {
        message: "m".to_string()
    }
    .is_recoverable());
    assert!(Error::InvalidColor {
        value: "zz".to_string()
    }
    .is_recoverable());
    assert!(!Error::FontNotFound.is_recoverable());
    assert!(!Error::ActivationFailed("a".to_string()).is_recoverable());
    assert!(!Error::Other("o".to_string()).is_recoverable());
}

#[test]
fn test_default_settings_values() {
    let settings = open_sesame::Settings::default();
    assert_eq!(settings.activation_key, "alt+space");
    assert_eq!(settings.activation_delay, 200);
    assert_eq!(settings.overlay_delay, 720);
    assert_eq!(settings.quick_switch_threshold, 250);
    assert!(settings.env_files.is_empty());
}
