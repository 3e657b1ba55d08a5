//! Error type for the library's own failure modes.

use vstd::prelude::*;

verus! {

/// Failures the library reports.
#[derive(Debug)]
pub enum Error {
    /// Window with the given identifier was not found.
    WindowNotFound {
        /// The identifier that was searched for.
        identifier: String,
    },
    /// Failed to activate the target window.
    ActivationFailed(String),
    /// Configuration validation failed.
    ConfigValidation {
        /// Description of the validation error.
        message: String,
    },
    /// Invalid color format in configuration.
    InvalidColor {
        /// The invalid color value.
        value: String,
    },
    /// Surface dimensions are invalid.
    InvalidDimensions {
        /// The invalid width.
        width: u32,
        /// The invalid height.
        height: u32,
    },
    /// No suitable font could be found.
    FontNotFound,
    /// Any other failure, described in text.
    Other(String),
}

impl Error {
    /// Whether the error leaves the program able to continue.
    pub fn is_recoverable(&self) -> (r: bool)
        ensures
            r == (self matches Error::WindowNotFound { .. } || self matches Error::ConfigValidation {
                ..
            } || self matches Error::InvalidColor { .. }),
    {
        match self {
            Error::WindowNotFound { .. } => true,
            Error::ConfigValidation { .. } => true,
            Error::InvalidColor { .. } => true,
            _ => false,
        }
    }
}

} // verus!
