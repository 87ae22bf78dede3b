//! Errors of the window-system layer.
use vstd::prelude::*;

verus! {

/// An operation the platform cannot do.
#[derive(Clone, Copy, Debug, PartialEq, Eq, Structural)]
pub enum ExternalError {
    NotSupported,
    Ignored,
}

impl ExternalError {
    /// The error's message.
    pub fn message(&self) -> (s: &'static str)
        ensures
            s@ == match *self {
                ExternalError::NotSupported => "Not supported"@,
                ExternalError::Ignored => "Operation was ignored"@,
            },
    {
        match self {
            ExternalError::NotSupported => "Not supported",
            ExternalError::Ignored => "Operation was ignored",
        }
    }
}

/// The window is created from nothing.
#[derive(Clone, Copy, Debug, PartialEq, Eq, Structural)]
pub struct WindowBuilder {}

impl WindowBuilder {
    pub fn new() -> (b: WindowBuilder)
        ensures
            b == (WindowBuilder {}),
    {
        WindowBuilder {}
    }
}

} // verus!
