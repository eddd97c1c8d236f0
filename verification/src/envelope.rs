//! Signed call envelopes: extraction of the call description out of a
//! hex-encoded binary envelope.

use vstd::prelude::*;
use vstd::string::StringExecFns;
use crate::cbor::{cbor_parse, decode_cbor, map_entry, Cbor, CborValue};
use crate::errors::DecodeError;
use crate::hexstr::{hex_bytes_of, hex_decode, is_hex_text};
use crate::identity::{principal_bytes, principal_ok, principal_pair};
use crate::render::{ArgRenderer, RenderRole};

verus! {

/// A reference to a previously submitted call's status: the target, the
/// request identifier, and the hex-encoded envelope that re-derives it.
#[derive(Debug, Default, Clone)]
pub struct RequestStatus {
    pub canister_id: String,
    pub request_id: String,
    pub content: String,
}

/// A signed message: its call type, an optional request identifier, and the
/// hex-encoded binary envelope holding the signed content.
#[derive(Debug, Default, Clone)]
pub struct Ingress {
    pub call_type: String,
    pub request_id: Option<String>,
    pub content: String,
}

/// A signed message paired with the status reference used to poll for the
/// call's result.
#[derive(Debug, Default, Clone)]
pub struct IngressWithRequestId {
    pub ingress: Ingress,
    pub request_status: RequestStatus,
}

/// The four required fields of a call envelope, read off a decoded value:
/// the top level must be a map whose `content` entry is a map holding
/// `sender` (bytes), `canister_id` (bytes), `method_name` (text) and `arg`
/// (bytes).  All four must be present and well typed at once.
pub open spec fn envelope_fields(c: Cbor) -> Option<(Seq<u8>, Seq<u8>, Seq<char>, Seq<u8>)> {
    match c {
        Cbor::Table(outer) => match map_entry(outer, "content"@) {
            Some(Cbor::Table(inner)) => match (
                map_entry(inner, "sender"@),
                map_entry(inner, "canister_id"@),
                map_entry(inner, "method_name"@),
                map_entry(inner, "arg"@),
            ) {
                (
                    Some(Cbor::Bytes(sender)),
                    Some(Cbor::Bytes(canister)),
                    Some(Cbor::Text(method)),
                    Some(Cbor::Bytes(arg)),
                ) => Some((sender, canister, method, arg)),
                _ => None,
            },
            _ => None,
        },
        _ => None,
    }
}

/// What extracting a call description from hex-encoded envelope text
/// yields: the four raw fields, or the first classified error of the
/// pipeline (hex decoding, then binary parsing, then the structural check,
/// then identity validation).
pub open spec fn extract_spec(text: Seq<char>) -> Result<
    (Seq<u8>, Seq<u8>, Seq<char>, Seq<u8>),
    DecodeError,
> {
    if !is_hex_text(text) {
        Err(DecodeError::HexDecode)
    } else {
        match cbor_parse(hex_bytes_of(text)) {
            None => Err(DecodeError::BinaryFormat),
            Some(c) => match envelope_fields(c) {
                None => Err(DecodeError::StructuralMismatch),
                Some(f) => if principal_ok(f.0) && principal_ok(f.1) {
                    Ok(f)
                } else {
                    Err(DecodeError::InvalidIdentity)
                },
            },
        }
    }
}

/// Copies a byte string.
fn copy_bytes(v: &Vec<u8>) -> (r: Vec<u8>)
    ensures
        r@ == v@,
{
    let mut r: Vec<u8> = Vec::new();
    let mut i: usize = 0;
    while i < v.len()
        invariant
            i <= v.len(),
            r@ == v@.take(i as int),
        decreases v.len() - i,
    {
        r.push(v[i]);
        i = i + 1;
        proof {
            assert(r@ =~= v@.take(i as int));
        }
    }
    proof {
        assert(v@.take(v@.len() as int) =~= v@);
    }
    r
}

impl Ingress {
    /// Extracts the call description out of the envelope: the sender and
    /// target identities, the method name, and the raw argument bytes.  The
    /// argument bytes are not decoded here; rendering belongs to
    /// [`ArgRenderer`].
    pub fn extract(&self) -> (r: Result<
        (ic_types::principal::Principal, ic_types::principal::Principal, String, Vec<u8>),
        DecodeError,
    >)
        ensures
            (match extract_spec(self.content@) {
                Ok(f) => r matches Ok(t) && principal_bytes(t.0) == f.0 && principal_bytes(t.1)
                    == f.1 && t.2@ == f.2 && t.3@ == f.3,
                Err(e) => r matches Err(e2) && e2 == e,
            }),
    {
        let bytes = match hex_decode(self.content.as_str()) {
            Some(b) => b,
            None => {
                return Err(DecodeError::HexDecode);
            }
        };
        let value = match decode_cbor(&bytes) {
            Some(v) => v,
            None => {
                return Err(DecodeError::BinaryFormat);
            }
        };
        let outer = match &value {
            CborValue::Table(es) => es,
            _ => {
                return Err(DecodeError::StructuralMismatch);
            }
        };
        let content = match outer.get_text(&"content".to_owned()) {
            Some(c) => c,
            None => {
                return Err(DecodeError::StructuralMismatch);
            }
        };
        let inner = match content {
            CborValue::Table(es) => es,
            _ => {
                return Err(DecodeError::StructuralMismatch);
            }
        };
        let sender_bytes = match inner.get_text(&"sender".to_owned()) {
            Some(CborValue::Bytes(b)) => b,
            _ => {
                return Err(DecodeError::StructuralMismatch);
            }
        };
        let canister_bytes = match inner.get_text(&"canister_id".to_owned()) {
            Some(CborValue::Bytes(b)) => b,
            _ => {
                return Err(DecodeError::StructuralMismatch);
            }
        };
        let method_name = match inner.get_text(&"method_name".to_owned()) {
            Some(CborValue::Text(t)) => t,
            _ => {
                return Err(DecodeError::StructuralMismatch);
            }
        };
        let arg = match inner.get_text(&"arg".to_owned()) {
            Some(CborValue::Bytes(b)) => b,
            _ => {
                return Err(DecodeError::StructuralMismatch);
            }
        };
        let (sender, canister) = match principal_pair(sender_bytes, canister_bytes) {
            Ok(p) => p,
            Err(e) => {
                return Err(e);
            }
        };
        Ok((sender, canister, method_name.clone(), copy_bytes(arg)))
    }

    /// Extracts the call description and renders the argument bytes through
    /// the given renderer: the whole decode-and-render pipeline in one call.
    pub fn parse<R: ArgRenderer>(&self, renderer: &R) -> (r: Result<
        (ic_types::principal::Principal, ic_types::principal::Principal, String, String),
        DecodeError,
    >)
        ensures
            (match extract_spec(self.content@) {
                Err(e) => r matches Err(e2) && e2 == e,
                Ok(f) => match renderer.render_spec(f.3, f.1, f.2, RenderRole::Args) {
                    Some(txt) => r matches Ok(t) && principal_bytes(t.0) == f.0
                        && principal_bytes(t.1) == f.1 && t.2@ == f.2 && t.3@ == txt,
                    None => r matches Err(e) && e == DecodeError::Render,
                },
            }),
    {
        let (sender, canister, method_name, arg) = match self.extract() {
            Ok(t) => t,
            Err(e) => {
                return Err(e);
            }
        };
        let rendered = match renderer.render(&arg, &canister, method_name.as_str(), RenderRole::Args) {
            Ok(s) => s,
            Err(e) => {
                return Err(e);
            }
        };
        Ok((sender, canister, method_name, rendered))
    }
}

/// Hex text that is not well formed is rejected before any binary parsing:
/// the result is the hex error, whatever the rest of the pipeline would say.
pub proof fn lemma_bad_hex_rejected_first(text: Seq<char>)
    requires
        !is_hex_text(text),
    ensures
        extract_spec(text) == Err::<(Seq<u8>, Seq<u8>, Seq<char>, Seq<u8>), DecodeError>(
            DecodeError::HexDecode,
        ),
{
}

/// An envelope whose decoded content map lacks any of the four required
/// fields (or types one wrongly) extracts to the structural error, and no
/// identity is validated.
pub proof fn lemma_missing_field_is_structural(text: Seq<char>, c: Cbor)
    requires
        is_hex_text(text),
        cbor_parse(hex_bytes_of(text)) == Some(c),
        envelope_fields(c) is None,
    ensures
        extract_spec(text) == Err::<(Seq<u8>, Seq<u8>, Seq<char>, Seq<u8>), DecodeError>(
            DecodeError::StructuralMismatch,
        ),
{
}

/// Extraction is a pure function of the envelope text: identical inputs
/// yield identical outcomes.
pub proof fn lemma_extract_deterministic(a: Seq<char>, b: Seq<char>)
    requires
        a == b,
    ensures
        extract_spec(a) == extract_spec(b),
{
}

} // verus!
