//! The argument renderer: an injectable collaborator that turns raw
//! argument or return bytes into readable text.
//!
//! Resolving a method's declared interface description may take I/O, so the
//! renderer is a trait the surrounding workflow implements; the crate ships
//! one verified fallback that renders the bytes as hexadecimal text, the
//! generic decode used when no interface description is available.

use vstd::prelude::*;
use crate::errors::DecodeError;
use crate::hexstr::hex_encode_bytes;
use crate::hexstr::hex_text_of;
use crate::identity::principal_bytes;

verus! {

/// Whether raw bytes are a method's arguments or its return values.
#[derive(Clone, Copy, Debug, PartialEq, Eq, Structural)]
pub enum RenderRole {
    Args,
    Returns,
}

/// A collaborator that renders raw bytes for the method of a target
/// identity, given as the target principal's raw bytes, into readable text;
/// `None` in the specification marks the inputs on which it fails.
pub trait ArgRenderer {
    /// What this renderer makes of the given bytes.
    spec fn render_spec(
        &self,
        arg: Seq<u8>,
        target: Seq<u8>,
        method: Seq<char>,
        role: RenderRole,
    ) -> Option<Seq<char>>;

    /// Renders the raw bytes, or fails exactly where the specification
    /// gives nothing.
    fn render(
        &self,
        arg: &Vec<u8>,
        target: &ic_types::principal::Principal,
        method_name: &str,
        role: RenderRole,
    ) -> (r: Result<String, DecodeError>)
        ensures
            (match self.render_spec(arg@, principal_bytes(*target), method_name@, role) {
                Some(t) => r matches Ok(s) && s@ == t,
                None => r matches Err(e) && e == DecodeError::Render,
            }),
    ;
}

/// The generic fallback: renders any byte string as lower-case hexadecimal
/// text, never failing and never dropping a byte.
pub struct HexFallbackRenderer;

impl ArgRenderer for HexFallbackRenderer {
    open spec fn render_spec(
        &self,
        arg: Seq<u8>,
        target: Seq<u8>,
        method: Seq<char>,
        role: RenderRole,
    ) -> Option<Seq<char>> {
        Some(hex_text_of(arg))
    }

    fn render(
        &self,
        arg: &Vec<u8>,
        target: &ic_types::principal::Principal,
        method_name: &str,
        role: RenderRole,
    ) -> (r: Result<String, DecodeError>) {
        Ok(hex_encode_bytes(arg))
    }
}

} // verus!
