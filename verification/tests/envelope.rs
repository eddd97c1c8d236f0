use std::collections::BTreeMap;
use std::convert::TryFrom;

use ic_types::principal::Principal;
use serde_cbor::Value;
use signed_message::{DecodeError, HexFallbackRenderer, Ingress, IngressWithRequestId, RequestStatus};

fn text(s: &str) -> Value {
    Value::Text(s.to_string())
}

fn envelope_with(fields: Vec<(&str, Value)>) -> Ingress {
    let mut inner = BTreeMap::new();
    for (k, v) in fields {
        inner.insert(text(k), v);
    }
    let mut outer = BTreeMap::new();
    outer.insert(text("content"), Value::Map(inner));
    let bytes = serde_cbor::to_vec(&Value::Map(outer)).unwrap();
    Ingress {
        call_type: "update".to_string(),
        request_id: None,
        content: hex::encode(bytes),
    }
}

fn full_envelope() -> Ingress {
    envelope_with(vec![
        ("sender", Value::Bytes(vec![0x04])),
        ("canister_id", Value::Bytes(vec![0x01])),
        ("method_name", text("greet")),
        ("arg", Value::Bytes(vec![0xDE, 0xAD, 0xBE, 0xEF])),
    ])
}

#[test]
fn extracts_well_formed_envelope() {
    let (sender, canister, method, arg) = full_envelope().extract().unwrap();
    assert_eq!(sender, Principal::try_from(&vec![0x04u8]).unwrap());
    assert_eq!(canister, Principal::try_from(&vec![0x01u8]).unwrap());
    assert_eq!(sender.as_slice(), &[0x04]);
    assert_eq!(canister.as_slice(), &[0x01]);
    assert_eq!(method, "greet");
    assert_eq!(arg, vec![0xDE, 0xAD, 0xBE, 0xEF]);
}

#[test]
fn parse_renders_args_as_hex() {
    let (_, _, method, rendered) = full_envelope().parse(&HexFallbackRenderer).unwrap();
    assert_eq!(method, "greet");
    assert_eq!(rendered, "deadbeef");
}

#[test]
fn missing_sender_is_structural_mismatch() {
    let msg = envelope_with(vec![
        ("canister_id", Value::Bytes(vec![0x01])),
        ("method_name", text("greet")),
        ("arg", Value::Bytes(vec![0xDE])),
    ]);
    assert_eq!(msg.extract().unwrap_err(), DecodeError::StructuralMismatch);
}

#[test]
fn missing_canister_id_is_structural_mismatch() {
    let msg = envelope_with(vec![
        ("sender", Value::Bytes(vec![0x04])),
        ("method_name", text("greet")),
        ("arg", Value::Bytes(vec![0xDE])),
    ]);
    assert_eq!(msg.extract().unwrap_err(), DecodeError::StructuralMismatch);
}

#[test]
fn missing_method_name_is_structural_mismatch() {
    let msg = envelope_with(vec![
        ("sender", Value::Bytes(vec![0x04])),
        ("canister_id", Value::Bytes(vec![0x01])),
        ("arg", Value::Bytes(vec![0xDE])),
    ]);
    assert_eq!(msg.extract().unwrap_err(), DecodeError::StructuralMismatch);
}

#[test]
fn missing_arg_is_structural_mismatch() {
    let msg = envelope_with(vec![
        ("sender", Value::Bytes(vec![0x04])),
        ("canister_id", Value::Bytes(vec![0x01])),
        ("method_name", text("greet")),
    ]);
    assert_eq!(msg.extract().unwrap_err(), DecodeError::StructuralMismatch);
}

#[test]
fn wrongly_typed_sender_is_structural_mismatch() {
    let msg = envelope_with(vec![
        ("sender", text("not bytes")),
        ("canister_id", Value::Bytes(vec![0x01])),
        ("method_name", text("greet")),
        ("arg", Value::Bytes(vec![0xDE])),
    ]);
    assert_eq!(msg.extract().unwrap_err(), DecodeError::StructuralMismatch);
}

#[test]
fn non_hex_text_is_hex_error() {
    let msg = Ingress {
        call_type: "update".to_string(),
        request_id: None,
        content: "zz".to_string(),
    };
    assert_eq!(msg.extract().unwrap_err(), DecodeError::HexDecode);
}

#[test]
fn odd_length_hex_is_hex_error() {
    let msg = Ingress {
        call_type: "update".to_string(),
        request_id: None,
        content: "a1b".to_string(),
    };
    assert_eq!(msg.extract().unwrap_err(), DecodeError::HexDecode);
}

#[test]
fn garbage_bytes_are_binary_format_error() {
    let msg = Ingress {
        call_type: "update".to_string(),
        request_id: None,
        content: "ff".to_string(),
    };
    assert_eq!(msg.extract().unwrap_err(), DecodeError::BinaryFormat);
}

#[test]
fn non_map_top_level_is_structural_mismatch() {
    let bytes = serde_cbor::to_vec(&Value::Integer(7)).unwrap();
    let msg = Ingress {
        call_type: "update".to_string(),
        request_id: None,
        content: hex::encode(bytes),
    };
    assert_eq!(msg.extract().unwrap_err(), DecodeError::StructuralMismatch);
}

#[test]
fn non_map_content_is_structural_mismatch() {
    let mut outer = BTreeMap::new();
    outer.insert(text("content"), text("not a map"));
    let bytes = serde_cbor::to_vec(&Value::Map(outer)).unwrap();
    let msg = Ingress {
        call_type: "update".to_string(),
        request_id: None,
        content: hex::encode(bytes),
    };
    assert_eq!(msg.extract().unwrap_err(), DecodeError::StructuralMismatch);
}

#[test]
fn missing_content_key_is_structural_mismatch() {
    let mut outer = BTreeMap::new();
    outer.insert(text("something"), Value::Map(BTreeMap::new()));
    let bytes = serde_cbor::to_vec(&Value::Map(outer)).unwrap();
    let msg = Ingress {
        call_type: "update".to_string(),
        request_id: None,
        content: hex::encode(bytes),
    };
    assert_eq!(msg.extract().unwrap_err(), DecodeError::StructuralMismatch);
}

#[test]
fn overlong_sender_is_invalid_identity() {
    let msg = envelope_with(vec![
        ("sender", Value::Bytes(vec![0xAB; 30])),
        ("canister_id", Value::Bytes(vec![0x01])),
        ("method_name", text("greet")),
        ("arg", Value::Bytes(vec![0xDE])),
    ]);
    assert_eq!(msg.extract().unwrap_err(), DecodeError::InvalidIdentity);
}

#[test]
fn twenty_nine_byte_identity_is_accepted() {
    let msg = envelope_with(vec![
        ("sender", Value::Bytes(vec![0xAB; 29])),
        ("canister_id", Value::Bytes(vec![])),
        ("method_name", text("greet")),
        ("arg", Value::Bytes(vec![])),
    ]);
    let (sender, canister, _, _) = msg.extract().unwrap();
    assert_eq!(sender.as_slice(), &[0xAB; 29][..]);
    assert_eq!(canister.as_slice(), &[] as &[u8]);
}

#[test]
fn extraction_is_idempotent() {
    let msg = full_envelope();
    let first = msg.extract().unwrap();
    let second = msg.extract().unwrap();
    assert_eq!(first, second);
    let rendered_a = msg.parse(&HexFallbackRenderer).unwrap().3;
    let rendered_b = msg.parse(&HexFallbackRenderer).unwrap().3;
    assert_eq!(rendered_a, rendered_b);
}

#[test]
fn status_reference_carries_envelope_for_reparsing() {
    let ingress = full_envelope();
    let paired = IngressWithRequestId {
        request_status: RequestStatus {
            canister_id: "aaaaa-aa".to_string(),
            request_id: "1234".to_string(),
            content: ingress.content.clone(),
        },
        ingress,
    };
    let from_ingress = paired.ingress.extract().unwrap();
    let from_status = Ingress {
        call_type: "request_status".to_string(),
        request_id: Some(paired.request_status.request_id.clone()),
        content: paired.request_status.content.clone(),
    }
    .extract()
    .unwrap();
    assert_eq!(from_ingress, from_status);
}

#[test]
fn error_messages_match_policy() {
    assert_eq!(
        DecodeError::BinaryFormat.message(),
        "Invalid cbor data in the content of the message."
    );
    assert_eq!(DecodeError::StructuralMismatch.message(), "Invalid cbor content");
}
