use monero_rpc::codec::{unwrap_envelope, SubaddressIndex, TransferPriority};
use monero_rpc::error::DecodeError;
use monero_rpc::hex::{decode, decode_exact, encode};
use monero_rpc::json::JsonValue;
use monero_rpc::models::{HashDigest, PaymentId};

fn s(t: &str) -> String {
    String::from(t)
}

fn obj(entries: Vec<(&str, JsonValue)>) -> JsonValue {
    JsonValue::Obj(entries.into_iter().map(|(k, v)| (s(k), v)).collect())
}

#[test]
fn hex_encode_lowercase() {
    assert_eq!(encode(&vec![0x00, 0xff, 0x1a]), "00ff1a");
    assert_eq!(encode(&vec![]), "");
    assert_eq!(encode(&vec![0xde, 0xad, 0xbe, 0xef]), "deadbeef");
}

#[test]
fn hex_round_trip() {
    let cases: Vec<Vec<u8>> = vec![
        vec![],
        vec![0],
        vec![255],
        vec![1, 2, 3, 4, 5],
        (0u16..256).map(|b| b as u8).collect(),
    ];
    for b in cases {
        assert_eq!(decode(&encode(&b)).unwrap(), b);
    }
}

#[test]
fn hex_decode_accepts_uppercase() {
    assert_eq!(decode("FF"), Ok(vec![0xff]));
    assert_eq!(decode("DeAd"), Ok(vec![0xde, 0xad]));
}

#[test]
fn hex_decode_rejects_odd_length() {
    assert_eq!(decode("abc"), Err(DecodeError::InvalidHex));
    assert_eq!(decode("f"), Err(DecodeError::InvalidHex));
}

#[test]
fn hex_decode_rejects_non_hex() {
    assert_eq!(decode("zz"), Err(DecodeError::InvalidHex));
    assert_eq!(decode("0g"), Err(DecodeError::InvalidHex));
    assert_eq!(decode("12 4"), Err(DecodeError::InvalidHex));
}

#[test]
fn hex_decode_exact_checks_length() {
    assert_eq!(decode_exact("0011", 2), Ok(vec![0x00, 0x11]));
    assert_eq!(decode_exact("0011", 3), Err(DecodeError::WrongLength));
    assert_eq!(decode_exact("0g", 1), Err(DecodeError::InvalidHex));
}

#[test]
fn priority_round_trip() {
    let all = [
        TransferPriority::Default,
        TransferPriority::Unimportant,
        TransferPriority::Elevated,
        TransferPriority::Priority,
    ];
    for p in all {
        assert_eq!(TransferPriority::decode(p.encode()), Ok(p));
    }
}

#[test]
fn priority_wire_values() {
    assert_eq!(TransferPriority::Default.encode(), 0);
    assert_eq!(TransferPriority::Unimportant.encode(), 1);
    assert_eq!(TransferPriority::Elevated.encode(), 2);
    assert_eq!(TransferPriority::Priority.encode(), 3);
}

#[test]
fn priority_rejects_out_of_range() {
    assert_eq!(TransferPriority::decode(4), Err(DecodeError::OutOfRange));
    assert_eq!(TransferPriority::decode(255), Err(DecodeError::OutOfRange));
}

#[test]
fn envelope_accepts_success_status() {
    let v = obj(vec![("status", JsonValue::Str(s("OK"))), ("count", JsonValue::Num(7))]);
    let es = unwrap_envelope(v).unwrap();
    assert_eq!(es.len(), 2);
    assert_eq!(es[1], (s("count"), JsonValue::Num(7)));
}

#[test]
fn envelope_rejects_other_status() {
    let v = obj(vec![("status", JsonValue::Str(s("BUSY"))), ("count", JsonValue::Num(7))]);
    assert_eq!(unwrap_envelope(v), Err(DecodeError::BadStatus(s("BUSY"))));
}

#[test]
fn envelope_rejects_missing_status() {
    let v = obj(vec![("count", JsonValue::Num(7))]);
    assert_eq!(unwrap_envelope(v), Err(DecodeError::MissingField(s("status"))));
}

#[test]
fn envelope_rejects_non_object() {
    assert_eq!(
        unwrap_envelope(JsonValue::Num(3)),
        Err(DecodeError::WrongType(s("result")))
    );
}

#[test]
fn subaddress_wire_round_trip() {
    let ix = SubaddressIndex { major: 3, minor: 9 };
    match ix.to_json() {
        JsonValue::Obj(es) => {
            assert_eq!(es[0], (s("major"), JsonValue::Num(3)));
            assert_eq!(es[1], (s("minor"), JsonValue::Num(9)));
            assert_eq!(SubaddressIndex::from_json(&es), Ok(ix));
        }
        other => panic!("expected an object, got {:?}", other),
    }
}

#[test]
fn subaddress_from_json_rejects_missing_minor() {
    let es = vec![(s("major"), JsonValue::Num(3))];
    assert_eq!(
        SubaddressIndex::from_json(&es),
        Err(DecodeError::MissingField(s("minor")))
    );
}

#[test]
fn hash_digest_round_trip() {
    let hex64 = "0123456789abcdef0123456789abcdef0123456789abcdef0123456789abcdef";
    let h = HashDigest::from_hex(hex64).unwrap();
    assert_eq!(h.to_hex(), hex64);
    assert_eq!(h.bytes().len(), 32);
    assert_eq!(HashDigest::from_hex("00ff"), Err(DecodeError::WrongLength));
    assert_eq!(HashDigest::from_hex("zz"), Err(DecodeError::InvalidHex));
}

#[test]
fn payment_id_round_trip() {
    let p = PaymentId::from_hex("0011223344556677").unwrap();
    assert_eq!(p.to_hex(), "0011223344556677");
    assert_eq!(PaymentId::from_hex("00"), Err(DecodeError::WrongLength));
    assert_eq!(
        PaymentId::from_bytes(vec![1, 2, 3]),
        Err(DecodeError::WrongLength)
    );
}
