//! Decoding and validation of signed call envelopes and query replies.
//!
//! A signed call envelope is a hex-encoded, self-describing binary (CBOR)
//! record wrapping a canister method invocation.  This crate turns such a
//! blob into a structured call description (caller, target, method name,
//! argument bytes) and turns a raw reply blob into either a decoded result
//! or an explicit rejection, with a classified error for every malformed
//! input.  Rendering of raw argument bytes into readable text is delegated
//! to an injectable collaborator (`render::ArgRenderer`).

pub mod cbor;
pub mod decimal;
pub mod envelope;
pub mod errors;
pub mod hexstr;
pub mod identity;
pub mod render;
pub mod reply;

pub use envelope::Ingress;
pub use envelope::IngressWithRequestId;
pub use envelope::RequestStatus;
pub use errors::DecodeError;
pub use render::ArgRenderer;
pub use render::HexFallbackRenderer;
pub use render::RenderRole;
pub use reply::parse_query_response;
pub use reply::ReplyOutcome;
