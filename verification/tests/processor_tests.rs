//! Input processor tests.

use open_sesame::{
    Config, HintAssignment, HintMatcher, InputAction, InputProcessor, Window,
};

#[test]
fn test_keysym_to_char() {
    // Tests alphanumeric key conversion; lowercase keysyms equal ASCII.
    assert_eq!(open_sesame::keysym_to_alnum(0x61), Some('a'));
    assert_eq!(open_sesame::keysym_to_alnum(0x41), Some('a'));
    assert_eq!(open_sesame::keysym_to_alnum(0x31), Some('1'));

    // Non-alphanumeric keys return None
    assert_eq!(open_sesame::keysym_to_alnum(0x20), None);
    assert_eq!(open_sesame::keysym_to_alnum(open_sesame::KEY_RETURN), None);
}

#[test]
fn test_input_processor_basic() {
    let processor = InputProcessor::new(200);
    assert!(processor.buffer().is_empty());
    assert!(!processor.has_pending());
}

#[test]
fn test_process_key_exact_match_pends() {
    let windows = vec![
        Window::mock("firefox", "Tab 1"),
        Window::mock("ghostty", "Terminal"),
    ];
    let assignment = HintAssignment::assign(&windows, |app_id| match app_id.as_str() {
        "firefox" => Some('f'),
        "ghostty" => Some('g'),
        _ => None,
    });
    let matcher = HintMatcher::new(&assignment.hints);
    let config = Config::default();

    let mut processor = InputProcessor::new(200);
    let action = processor.process_key(0x67, &matcher, &config, 0);
    match action {
        InputAction::PendingActivation { index, .. } => assert_eq!(index, 1),
        other => panic!("expected pending activation, got {:?}", other),
    }
    assert!(processor.has_pending());
    assert_eq!(processor.input_string(), "g");

    // After the delay elapses the pending activation is handed out.
    assert!(processor.timeout_elapsed(250));
    let fired = processor.check_timeout(250);
    assert!(fired.is_some());
    assert_eq!(fired.unwrap().0, 1);
    assert!(!processor.has_pending());
}

#[test]
fn test_process_key_no_match_reverts() {
    let windows = vec![Window::mock("firefox", "Tab 1")];
    let assignment = HintAssignment::assign(&windows, |_| Some('f'));
    let matcher = HintMatcher::new(&assignment.hints);
    let mut config = Config::default();
    config.keys.clear();

    let mut processor = InputProcessor::new(200);
    // 'q' matches nothing and has no launch binding: the push reverts.
    let action = processor.process_key(0x71, &matcher, &config, 0);
    assert!(matches!(action, InputAction::BufferChanged));
    assert_eq!(processor.input_string(), "");
}
