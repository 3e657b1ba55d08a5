//! Wire protocol byte tests.

use open_sesame::{IpcCommand, IpcResponse};

#[test]
fn test_command_byte_roundtrip() {
    for cmd in [
        IpcCommand::CycleForward,
        IpcCommand::CycleBackward,
        IpcCommand::Ping,
    ] {
        let byte = cmd.to_byte();
        let decoded = IpcCommand::from_byte(byte);
        assert_eq!(decoded, Some(cmd));
    }
}

#[test]
fn test_response_byte_roundtrip() {
    for resp in [IpcResponse::Okay, IpcResponse::Pong, IpcResponse::Error] {
        let byte = resp.to_byte();
        let decoded = IpcResponse::from_byte(byte);
        assert_eq!(decoded, Some(resp));
    }
}

#[test]
fn test_invalid_bytes() {
    assert_eq!(IpcCommand::from_byte(0), None);
    assert_eq!(IpcCommand::from_byte(255), None);
    assert_eq!(IpcResponse::from_byte(0), None);
    assert_eq!(IpcResponse::from_byte(255), None);
}
