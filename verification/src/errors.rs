//! The classified errors of the decoding pipeline.

use vstd::prelude::*;

verus! {

/// Everything that can go wrong while decoding an envelope or a reply.
///
/// The two CBOR-related variants deliberately carry a single coarse message
/// each: which field of an untrusted input was missing or mistyped is never
/// reported.
#[derive(Clone, Copy, Debug, PartialEq, Eq, Structural)]
pub enum DecodeError {
    /// The input text is not valid hexadecimal.
    HexDecode,
    /// The bytes do not parse as a self-describing binary map.
    BinaryFormat,
    /// The parsed structure lacks a required key, or a key has the wrong type.
    StructuralMismatch,
    /// A byte string was rejected by the identity encoding rule.
    InvalidIdentity,
    /// The argument renderer could not decode the raw bytes.
    Render,
}

impl DecodeError {
    /// The user-facing message of this error.
    pub fn message(&self) -> (r: &'static str)
        ensures
            (match *self {
                DecodeError::HexDecode => r@ == "Invalid hex in the content of the message."@,
                DecodeError::BinaryFormat => r@
                    == "Invalid cbor data in the content of the message."@,
                DecodeError::StructuralMismatch => r@ == "Invalid cbor content"@,
                DecodeError::InvalidIdentity => r@
                    == "Invalid principal bytes in the content of the message."@,
                DecodeError::Render => r@ == "Could not decode the argument bytes."@,
            }),
    {
        match self {
            DecodeError::HexDecode => "Invalid hex in the content of the message.",
            DecodeError::BinaryFormat => "Invalid cbor data in the content of the message.",
            DecodeError::StructuralMismatch => "Invalid cbor content",
            DecodeError::InvalidIdentity => "Invalid principal bytes in the content of the message.",
            DecodeError::Render => "Could not decode the argument bytes.",
        }
    }
}

} // verus!
