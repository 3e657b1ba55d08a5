//! The single-byte wire protocol used between instances.
//!
//! Commands and responses travel as one byte each; transport is the
//! caller's business.

use vstd::prelude::*;

verus! {

/// Commands one instance can send another.
#[derive(Debug, Clone, Copy, PartialEq, Eq, Structural)]
pub enum IpcCommand {
    /// Cycle the selection forward.
    CycleForward,
    /// Cycle the selection backward.
    CycleBackward,
    /// Check whether an instance is alive.
    Ping,
}

impl IpcCommand {
    /// The wire byte of a command.
    pub fn to_byte(self) -> (r: u8)
        ensures
            r == match self {
                IpcCommand::CycleForward => 70u8,
                IpcCommand::CycleBackward => 66u8,
                IpcCommand::Ping => 80u8,
            },
    {
        match self {
            IpcCommand::CycleForward => 70u8,
            IpcCommand::CycleBackward => 66u8,
            IpcCommand::Ping => 80u8,
        }
    }

    /// Decode a wire byte; exactly the three command bytes decode.
    pub fn from_byte(byte: u8) -> (r: Option<Self>)
        ensures
            r == match byte {
                70u8 => Some(IpcCommand::CycleForward),
                66u8 => Some(IpcCommand::CycleBackward),
                80u8 => Some(IpcCommand::Ping),
                _ => Option::<IpcCommand>::None,
            },
    {
        match byte {
            70u8 => Some(IpcCommand::CycleForward),
            66u8 => Some(IpcCommand::CycleBackward),
            80u8 => Some(IpcCommand::Ping),
            _ => None,
        }
    }
}

/// Responses to commands.
#[derive(Debug, Clone, Copy, PartialEq, Eq, Structural)]
pub enum IpcResponse {
    /// Command acknowledged and executed.
    Okay,
    /// Answer to a ping.
    Pong,
    /// Something went wrong.
    Error,
}

impl IpcResponse {
    /// The wire byte of a response.
    pub fn to_byte(self) -> (r: u8)
        ensures
            r == match self {
                IpcResponse::Okay => 75u8,
                IpcResponse::Pong => 79u8,
                IpcResponse::Error => 69u8,
            },
    {
        match self {
            IpcResponse::Okay => 75u8,
            IpcResponse::Pong => 79u8,
            IpcResponse::Error => 69u8,
        }
    }

    /// Decode a wire byte; exactly the three response bytes decode.
    pub fn from_byte(byte: u8) -> (r: Option<Self>)
        ensures
            r == match byte {
                75u8 => Some(IpcResponse::Okay),
                79u8 => Some(IpcResponse::Pong),
                69u8 => Some(IpcResponse::Error),
                _ => Option::<IpcResponse>::None,
            },
    {
        match byte {
            75u8 => Some(IpcResponse::Okay),
            79u8 => Some(IpcResponse::Pong),
            69u8 => Some(IpcResponse::Error),
            _ => None,
        }
    }
}

} // verus!
