//! The generic self-describing binary value: a structural CBOR tree and its
//! mathematical model.
//!
//! Parsing raw bytes is delegated to `serde_cbor`; everything that reads the
//! parsed tree is verified against the model below.

use vstd::prelude::*;

verus! {

/// The mathematical model of a decoded binary value.
///
/// Only the shapes the envelope logic reads are distinguished; every other
/// primitive (null, boolean, float, array, tag) collapses into `Other`.
pub enum Cbor {
    Bytes(Seq<u8>),
    Text(Seq<char>),
    Integer(int),
    Table(Seq<(Cbor, Cbor)>),
    Other,
}

/// A decoded binary value: a byte string, text, an integer, an ordered map
/// of values keyed by values, or any other primitive.
pub enum CborValue {
    Bytes(Vec<u8>),
    Text(String),
    Integer(i128),
    Table(CborEntries),
    Other,
}

/// The entries of a decoded map, in the parser's (canonical) key order.
pub enum CborEntries {
    Empty,
    Entry(Box<CborValue>, Box<CborValue>, Box<CborEntries>),
}

impl CborValue {
    /// The model of this value.
    pub open spec fn model(self) -> Cbor
        decreases self,
    {
        match self {
            CborValue::Bytes(b) => Cbor::Bytes(b@),
            CborValue::Text(t) => Cbor::Text(t@),
            CborValue::Integer(i) => Cbor::Integer(i as int),
            CborValue::Table(es) => Cbor::Table(es.model()),
            CborValue::Other => Cbor::Other,
        }
    }
}

impl CborEntries {
    /// The model of a map's entries: the key/value pairs in order.
    pub open spec fn model(self) -> Seq<(Cbor, Cbor)>
        decreases self,
    {
        match self {
            CborEntries::Empty => Seq::empty(),
            CborEntries::Entry(k, v, rest) => seq![((*k).model(), (*v).model())] + rest.model(),
        }
    }
}

/// The value under the first entry of `entries` whose key is exactly the
/// text `key`, if any.  A decoded CBOR map has no repeated key, so this is
/// plain map lookup.
pub open spec fn map_entry(entries: Seq<(Cbor, Cbor)>, key: Seq<char>) -> Option<Cbor>
    decreases entries.len(),
{
    if entries.len() == 0 {
        None
    } else if entries[0].0 == Cbor::Text(key) {
        Some(entries[0].1)
    } else {
        map_entry(entries.drop_first(), key)
    }
}

impl CborEntries {
    /// Looks up the value under a text key.
    pub fn get_text(&self, key: &String) -> (r: Option<&CborValue>)
        ensures
            map_entry(self.model(), key@) is None ==> r is None,
            map_entry(self.model(), key@) matches Some(c) ==> (r matches Some(v) && v.model()
                == c),
        decreases *self,
    {
        match self {
            CborEntries::Empty => None,
            CborEntries::Entry(k, v, rest) => {
                proof {
                    assert(self.model()[0] == ((**k).model(), (**v).model()));
                    assert(self.model().drop_first() =~= rest.model());
                }
                let key_matches = match &**k {
                    CborValue::Text(t) => t.eq(key),
                    _ => false,
                };
                if key_matches {
                    Some(&**v)
                } else {
                    rest.get_text(key)
                }
            }
        }
    }
}

/// What `serde_cbor` makes of a byte string: the model of the decoded value,
/// or nothing when the bytes do not conform to the binary map grammar.
pub uninterp spec fn cbor_parse(bytes: Seq<u8>) -> Option<Cbor>;

#[verifier::external_type_specification]
#[verifier::external_body]
pub struct ExSerdeCborValue(serde_cbor::Value);

/// Relies on the shape of `serde_cbor::Value` (serde_cbor 0.11.2): one arm
/// per variant, moving the decoded field into the crate's own tree; map
/// entries keep the `BTreeMap` key order.
#[verifier::external_body]
fn convert_value(v: serde_cbor::Value) -> CborValue {
    match v {
        serde_cbor::Value::Bytes(b) => CborValue::Bytes(b),
        serde_cbor::Value::Text(t) => CborValue::Text(t),
        serde_cbor::Value::Integer(i) => CborValue::Integer(i),
        serde_cbor::Value::Map(m) => CborValue::Table(m.into_iter().rev().fold(
            CborEntries::Empty,
            |rest, (k, val)| CborEntries::Entry(
                Box::new(convert_value(k)),
                Box::new(convert_value(val)),
                Box::new(rest),
            ),
        )),
        _ => CborValue::Other,
    }
}

/// Relies on `serde_cbor::from_slice` (serde_cbor 0.11.2): a deterministic,
/// total parse-or-reject of the self-describing binary map grammar, with no
/// partial result; the conversion above renames its variants.
#[verifier::external_body]
pub(crate) fn decode_cbor(bytes: &Vec<u8>) -> (r: Option<CborValue>)
    ensures
        (match cbor_parse(bytes@) {
            Some(c) => r matches Some(v) && v.model() == c,
            None => r is None,
        }),
{
    match serde_cbor::from_slice::<serde_cbor::Value>(bytes) {
        Ok(v) => Some(convert_value(v)),
        Err(_) => None,
    }
}

} // verus!
