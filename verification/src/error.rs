//! Error types of the library: driver-level errors carrying a native status
//! code or a message, and the frame error of the wire envelope codec.

use vstd::prelude::*;

use crate::value::Ty;

verus! {

/// A driver-level error: an optional native status code and an optional
/// message. Exactly one of the two is set by the constructors.
#[derive(Debug, Clone)]
pub struct RawError {
    pub code: Option<i32>,
    pub message: Option<String>,
}

impl RawError {
    /// An error that carries only a message.
    pub fn from_string(message: String) -> (r: RawError)
        ensures
            r.code is None,
            r.message == Some(message),
    {
        RawError { code: None, message: Some(message) }
    }

    /// An error that carries only a native status code.
    pub fn from_code(code: i32) -> (r: RawError)
        ensures
            r.code == Some(code),
            r.message is None,
    {
        RawError { code: Some(code), message: None }
    }
}

/// Failure of a single wire-envelope decode: the input ended before the
/// announced payload was complete. Fatal to that decode attempt only.
#[derive(Debug, Clone, Copy, PartialEq, Eq, Structural)]
pub enum FrameError {
    UnexpectedEof,
}

/// Failure of the row-to-record bridge, carrying the identity of the
/// offending column.
#[derive(Debug, Clone, Copy, PartialEq, Eq, Structural)]
pub enum DeError {
    /// A cell was requested as a primitive type it does not carry.
    TypeMismatch { col: usize, expected: Ty, found: Ty },
    /// A NULL cell was requested as a non-optional value.
    Nullness { col: usize },
    /// A value was requested past the last column of the row.
    Exhausted,
}

} // verus!
