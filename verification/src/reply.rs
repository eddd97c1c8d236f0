//! Query replies: recognizing the rejection and success shapes and turning
//! a raw reply blob into a decoded outcome.

use vstd::prelude::*;
use vstd::string::StringExecFns;
use crate::cbor::{cbor_parse, decode_cbor, map_entry, Cbor, CborValue};
use crate::decimal::{dec_str, decimal_string};
use crate::errors::DecodeError;
use crate::identity::principal_bytes;
use crate::render::{ArgRenderer, RenderRole};

verus! {

/// The structural shape of a well-formed reply: an explicit rejection with
/// its code and message, or a success carrying raw return bytes.
pub enum ReplyShape {
    Rejected(int, Seq<char>),
    Replied(Seq<u8>),
}

/// Reads the shape of a decoded reply map.  The rejection shape — an
/// integer `reject_code` beside a text `reject_message` — takes priority
/// over the success shape, a `reply` map holding byte-string `arg`; the
/// `status` entry is never consulted.
pub open spec fn reply_shape(m: Seq<(Cbor, Cbor)>) -> Option<ReplyShape> {
    match (map_entry(m, "reject_code"@), map_entry(m, "reject_message"@)) {
        (Some(Cbor::Integer(code)), Some(Cbor::Text(msg))) => Some(
            ReplyShape::Rejected(code, msg),
        ),
        _ => match map_entry(m, "reply"@) {
            Some(Cbor::Table(rm)) => match map_entry(rm, "arg"@) {
                Some(Cbor::Bytes(a)) => Some(ReplyShape::Replied(a)),
                _ => None,
            },
            _ => None,
        },
    }
}

/// What interpreting a raw reply blob yields: a shape, or the first
/// classified error (binary parsing, then the structural check).
pub open spec fn reply_spec(bytes: Seq<u8>) -> Result<ReplyShape, DecodeError> {
    match cbor_parse(bytes) {
        None => Err(DecodeError::BinaryFormat),
        Some(c) => match c {
            Cbor::Table(m) => match reply_shape(m) {
                Some(o) => Ok(o),
                None => Err(DecodeError::StructuralMismatch),
            },
            _ => Err(DecodeError::StructuralMismatch),
        },
    }
}

/// The outcome of a reply: exactly one of an explicit application-level
/// rejection or a successfully rendered return value.
#[derive(Debug, Clone)]
pub enum ReplyOutcome {
    Rejected { code: i128, message: String },
    Succeeded { rendered: String },
}

/// The one-line rendering of a rejection.
pub open spec fn rejection_text(code: int, message: Seq<char>) -> Seq<char> {
    "Rejected (code "@ + dec_str(code) + "): "@ + message
}

/// Renders a rejection as one line of text.
pub fn rejection_line(code: i128, message: &String) -> (r: String)
    ensures
        r@ == rejection_text(code as int, message@),
{
    let mut s = String::from_str("Rejected (code ");
    let digits = decimal_string(code);
    s.append(digits.as_str());
    s.append("): ");
    s.append(message.as_str());
    proof {
        assert(s@ =~= rejection_text(code as int, message@));
    }
    s
}

/// Interprets a raw reply blob: an explicit rejection yields its exact code
/// and message; a success yields the return bytes rendered through the
/// given renderer; anything else is a classified error.
pub fn interpret_reply<R: ArgRenderer>(
    response: &Vec<u8>,
    canister_id: &ic_types::principal::Principal,
    method_name: &str,
    renderer: &R,
) -> (r: Result<ReplyOutcome, DecodeError>)
    ensures
        (match reply_spec(response@) {
            Err(e) => r matches Err(e2) && e2 == e,
            Ok(ReplyShape::Rejected(code, msg)) => r matches Ok(o) && (o matches
                ReplyOutcome::Rejected { code: c2, message: m2 } && c2 as int == code && m2@
                == msg),
            Ok(ReplyShape::Replied(arg)) => match renderer.render_spec(
                arg,
                principal_bytes(*canister_id),
                method_name@,
                RenderRole::Returns,
            ) {
                Some(t) => r matches Ok(o) && (o matches ReplyOutcome::Succeeded { rendered }
                    && rendered@ == t),
                None => r matches Err(e2) && e2 == DecodeError::Render,
            },
        }),
{
    let value = match decode_cbor(response) {
        Some(v) => v,
        None => {
            return Err(DecodeError::BinaryFormat);
        }
    };
    let m = match &value {
        CborValue::Table(es) => es,
        _ => {
            return Err(DecodeError::StructuralMismatch);
        }
    };
    let code_opt = m.get_text(&"reject_code".to_owned());
    let msg_opt = m.get_text(&"reject_message".to_owned());
    if let (Some(CborValue::Integer(code)), Some(CborValue::Text(msg))) = (code_opt, msg_opt) {
        return Ok(ReplyOutcome::Rejected { code: *code, message: msg.clone() });
    }
    let reply_map = match m.get_text(&"reply".to_owned()) {
        Some(CborValue::Table(es)) => es,
        _ => {
            return Err(DecodeError::StructuralMismatch);
        }
    };
    let arg = match reply_map.get_text(&"arg".to_owned()) {
        Some(CborValue::Bytes(b)) => b,
        _ => {
            return Err(DecodeError::StructuralMismatch);
        }
    };
    match renderer.render(arg, canister_id, method_name, RenderRole::Returns) {
        Ok(s) => Ok(ReplyOutcome::Succeeded { rendered: s }),
        Err(e) => Err(e),
    }
}

/// Interprets a raw reply blob into its one-line text: the rejection line
/// for a rejection, the rendered return values for a success.
pub fn parse_query_response<R: ArgRenderer>(
    response: Vec<u8>,
    canister_id: ic_types::principal::Principal,
    method_name: &str,
    renderer: &R,
) -> (r: Result<String, DecodeError>)
    ensures
        (match reply_spec(response@) {
            Err(e) => r matches Err(e2) && e2 == e,
            Ok(ReplyShape::Rejected(code, msg)) => r matches Ok(s) && s@ == rejection_text(
                code,
                msg,
            ),
            Ok(ReplyShape::Replied(arg)) => match renderer.render_spec(
                arg,
                principal_bytes(canister_id),
                method_name@,
                RenderRole::Returns,
            ) {
                Some(t) => r matches Ok(s) && s@ == t,
                None => r matches Err(e2) && e2 == DecodeError::Render,
            },
        }),
{
    match interpret_reply(&response, &canister_id, method_name, renderer) {
        Ok(ReplyOutcome::Rejected { code, message }) => Ok(rejection_line(code, &message)),
        Ok(ReplyOutcome::Succeeded { rendered }) => Ok(rendered),
        Err(e) => Err(e),
    }
}

/// A reply holding an integer `reject_code` beside a text `reject_message`
/// is a rejection with exactly that code and message, whether or not a
/// `reply` entry is also present.
pub proof fn lemma_rejection_takes_priority(m: Seq<(Cbor, Cbor)>, code: int, msg: Seq<char>)
    requires
        map_entry(m, "reject_code"@) == Some(Cbor::Integer(code)),
        map_entry(m, "reject_message"@) == Some(Cbor::Text(msg)),
    ensures
        reply_shape(m) == Some(ReplyShape::Rejected(code, msg)),
{
}

/// A reply with no rejection pair whose `reply` map holds byte-string
/// `arg` is a success carrying exactly those bytes.
pub proof fn lemma_success_shape(m: Seq<(Cbor, Cbor)>, rm: Seq<(Cbor, Cbor)>, arg: Seq<u8>)
    requires
        !(map_entry(m, "reject_code"@) matches Some(Cbor::Integer(_)) && map_entry(
            m,
            "reject_message"@,
        ) matches Some(Cbor::Text(_))),
        map_entry(m, "reply"@) == Some(Cbor::Table(rm)),
        map_entry(rm, "arg"@) == Some(Cbor::Bytes(arg)),
    ensures
        reply_shape(m) == Some(ReplyShape::Replied(arg)),
{
}

/// A reply blob matching neither the rejection nor the success shape
/// interprets to the structural error.
pub proof fn lemma_unrecognized_reply_is_structural(bytes: Seq<u8>, c: Cbor)
    requires
        cbor_parse(bytes) == Some(c),
        c matches Cbor::Table(m) ==> reply_shape(m) is None,
    ensures
        reply_spec(bytes) == Err::<ReplyShape, DecodeError>(DecodeError::StructuralMismatch),
{
}

/// Interpretation is a pure function of the reply bytes: identical inputs
/// yield identical outcomes.
pub proof fn lemma_interpret_deterministic(a: Seq<u8>, b: Seq<u8>)
    requires
        a == b,
    ensures
        reply_spec(a) == reply_spec(b),
{
}

} // verus!
