//! Input buffer tests.

use open_sesame::{InputBuffer, MAX_INPUT_LENGTH};

#[test]
fn test_empty_buffer() {
    let buf = InputBuffer::new();
    assert!(buf.is_empty());
    assert_eq!(buf.len(), 0);
    assert_eq!(buf.as_str(), "");
}

#[test]
fn test_push_pop() {
    let mut buf = InputBuffer::new();
    buf.push('g');
    buf.push('G'); // Should be lowercased
    assert_eq!(buf.as_str(), "gg");
    assert_eq!(buf.len(), 2);

    assert_eq!(buf.pop(), Some('g'));
    assert_eq!(buf.as_str(), "g");
}

#[test]
fn test_first_char() {
    let mut buf = InputBuffer::new();
    assert_eq!(buf.first_char(), None);

    buf.push('f');
    buf.push('f');
    assert_eq!(buf.first_char(), Some('f'));
}

#[test]
fn test_from_str() {
    let buf = InputBuffer::from("GGG");
    assert_eq!(buf.as_str(), "ggg");
}

#[test]
fn test_display() {
    let buf = InputBuffer::from("test");
    assert_eq!(buf.as_str(), "test");
}

#[test]
fn test_max_length_push() {
    let mut buf = InputBuffer::new();
    // Fill the buffer to max
    for _ in 0..MAX_INPUT_LENGTH {
        assert!(buf.push('a'));
    }
    assert_eq!(buf.len(), MAX_INPUT_LENGTH);

    // Attempt to push more should fail
    assert!(!buf.push('b'));
    assert_eq!(buf.len(), MAX_INPUT_LENGTH);
}

#[test]
fn test_max_length_from_str() {
    let long_string = "a".repeat(MAX_INPUT_LENGTH * 2);
    let buf = InputBuffer::from(long_string.as_str());
    assert_eq!(buf.len(), MAX_INPUT_LENGTH);
}

#[test]
fn test_clear() {
    let mut buf = InputBuffer::from("abc");
    buf.clear();
    assert!(buf.is_empty());
    assert_eq!(buf.chars().len(), 0);
}
