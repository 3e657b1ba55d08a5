//! Keybinding text manipulation tests.

use open_sesame::{add_binding, escape_ron_string, format_keybinding, parse_key_combo, remove_sesame_bindings};

#[test]
fn test_parse_key_combo() {
    let (mods, key) = parse_key_combo("super+space").unwrap();
    assert_eq!(mods, vec!["Super"]);
    assert_eq!(key, "space");

    let (mods, key) = parse_key_combo("alt+tab").unwrap();
    assert_eq!(mods, vec!["Alt"]);
    assert_eq!(key, "tab");

    let (mods, key) = parse_key_combo("ctrl+shift+a").unwrap();
    assert_eq!(mods, vec!["Ctrl", "Shift"]);
    assert_eq!(key, "a");

    let (mods, key) = parse_key_combo("super+shift+g").unwrap();
    assert_eq!(mods, vec!["Super", "Shift"]);
    assert_eq!(key, "g");
}

#[test]
fn test_format_keybinding() {
    let result = format_keybinding(&["Super".to_string()], "space", "sesame");
    assert!(result.contains("modifiers: [Super]"));
    assert!(result.contains("key: \"space\""));
    assert!(result.contains("Spawn(\"sesame\")"));
}

#[test]
fn test_add_binding() {
    let content = "{\n}";
    let binding = "    (modifiers: [Super], key: \"space\"): Spawn(\"test\"),";
    let result = add_binding(content, binding);
    assert!(result.contains(binding));
    assert!(result.starts_with('{'));
    assert!(result.ends_with('}'));
}

#[test]
fn test_remove_bindings() {
    let content = r#"{
    (modifiers: [Super], key: "space"): Spawn("sesame"),
    (modifiers: [Alt], key: "tab"): Spawn("other-app"),
}"#;
    let result = remove_sesame_bindings(content);
    assert!(!result.contains("sesame"));
    assert!(result.contains("other-app"));
}

#[test]
fn test_escape_ron_string() {
    // Normal strings pass through unchanged
    assert_eq!(escape_ron_string("sesame"), "sesame");
    assert_eq!(escape_ron_string("simple"), "simple");

    // Quotes are escaped
    assert_eq!(escape_ron_string(r#"test"quote"#), r#"test\"quote"#);

    // Backslashes are escaped
    assert_eq!(escape_ron_string(r"path\to\file"), r"path\\to\\file");

    // Combined
    assert_eq!(escape_ron_string(r#"a\"b"#), r#"a\\\"b"#);
}

#[test]
fn test_format_keybinding_escapes_injection() {
    // Attempt to inject RON - should be safely escaped
    let result = format_keybinding(
        &["Super".to_string()],
        "space",
        r#"malicious"), Other("injected"#,
    );
    // The result should contain escaped quotes within the Spawn string
    assert!(
        result.contains(r#"Spawn("malicious\"), Other(\"injected")"#),
        "Result was: {}",
        result
    );
    // Should still have proper RON structure
    assert!(result.contains("modifiers: [Super]"));
    assert!(result.ends_with(","));
}

#[test]
fn test_has_sesame_binding() {
    assert!(open_sesame::has_sesame_binding("runs sesame --launcher"));
    assert!(!open_sesame::has_sesame_binding("nothing of note"));
}
