//! Why a message is rejected.

use crate::frame::FrameError;
use vstd::prelude::*;

verus! {

/// Why a message is rejected. Every one of these ends the session.
#[derive(Debug, Clone, Copy, PartialEq, Eq, Structural)]
pub enum ProtocolError {
    /// The envelope is malformed.
    Frame(FrameError),
    /// The JSON section is not a JSON document.
    InvalidJson,
    /// A member that the message must have is absent.
    MissingField,
    /// A member is present but is not a number of the kind or size required.
    InvalidNumber,
    /// A member that must be a string is something else.
    InvalidString,
    /// The fractal descriptor names no known family, or names several.
    UnknownDescriptor,
    /// The values parse but break an invariant of the message.
    InvalidValue,
    /// The binary section is not as long as the JSON section implies.
    BinaryLength,
}

} // verus!
