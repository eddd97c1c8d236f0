//! Identities: opaque platform principals, validated at construction.
//!
//! The encoding rule is the platform's, not this crate's: a principal is
//! any byte string of at most 29 bytes, and construction keeps the bytes
//! unchanged.  Validation itself is delegated to `ic_types`.

use vstd::prelude::*;
use crate::errors::DecodeError;

verus! {

#[verifier::external_type_specification]
#[verifier::external_body]
pub struct ExPrincipal(ic_types::principal::Principal);

/// The raw bytes that a constructed principal carries.
pub uninterp spec fn principal_bytes(p: ic_types::principal::Principal) -> Seq<u8>;

/// The identity encoding rule: a principal is at most 29 bytes long.
pub open spec fn principal_ok(bytes: Seq<u8>) -> bool {
    bytes.len() <= 29
}

/// Relies on `ic_types::principal::Principal::try_from(&Vec<u8>)`
/// (ic-types 0.5.0): it accepts exactly byte strings of at most 29 bytes
/// and stores the given bytes unchanged.
#[verifier::external_body]
pub(crate) fn principal_from_bytes(bytes: &Vec<u8>) -> (r: Option<
    ic_types::principal::Principal,
>)
    ensures
        (if principal_ok(bytes@) {
            r matches Some(p) && principal_bytes(p) == bytes@
        } else {
            r is None
        }),
{
    match <ic_types::principal::Principal as core::convert::TryFrom<&Vec<u8>>>::try_from(bytes) {
        Ok(p) => Some(p),
        Err(_) => None,
    }
}

/// Constructs the two identities of a call, or reports the first invalid one.
pub(crate) fn principal_pair(sender: &Vec<u8>, canister: &Vec<u8>) -> (r: Result<
    (ic_types::principal::Principal, ic_types::principal::Principal),
    DecodeError,
>)
    ensures
        (if principal_ok(sender@) && principal_ok(canister@) {
            r matches Ok(p) && principal_bytes(p.0) == sender@ && principal_bytes(p.1)
                == canister@
        } else {
            r matches Err(e) && e == DecodeError::InvalidIdentity
        }),
{
    match principal_from_bytes(sender) {
        Some(s) => match principal_from_bytes(canister) {
            Some(c) => Ok((s, c)),
            None => Err(DecodeError::InvalidIdentity),
        },
        None => Err(DecodeError::InvalidIdentity),
    }
}

} // verus!
