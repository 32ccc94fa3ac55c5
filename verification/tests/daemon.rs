use monero_rpc::client::RpcClient;
use monero_rpc::daemon;
use monero_rpc::daemon::GetBlockHeaderSelector;
use monero_rpc::error::{DecodeError, Error};
use monero_rpc::json::JsonValue;
use monero_rpc::models::{Address, HashDigest};
use monero_rpc::params::RpcParams;
use monero_rpc::transport::{RemoteResult, ScriptedCaller};
use monero_rpc::wallet;

fn s(t: &str) -> String {
    String::from(t)
}

fn obj(entries: Vec<(&str, JsonValue)>) -> JsonValue {
    JsonValue::Obj(entries.into_iter().map(|(k, v)| (s(k), v)).collect())
}

const HEX64: &str = "00112233445566778899aabbccddeeff00112233445566778899aabbccddeeff";

fn header_obj(height: u64) -> JsonValue {
    obj(vec![
        ("height", JsonValue::Num(height)),
        ("nonce", JsonValue::Num(5)),
        ("reward", JsonValue::Num(600)),
        ("timestamp", JsonValue::Num(1500000000)),
        ("orphan_status", JsonValue::Bool(false)),
        ("hash", JsonValue::Str(s(HEX64))),
        ("prev_hash", JsonValue::Str(s(HEX64))),
    ])
}

#[test]
fn block_header_selector_chooses_method_and_params() {
    let (m, p) = daemon::get_block_header_request(GetBlockHeaderSelector::Last);
    assert_eq!(m, "get_last_block_header");
    assert_eq!(p, RpcParams::Empty);

    let h = HashDigest::from_hex(HEX64).unwrap();
    let (m, p) = daemon::get_block_header_request(GetBlockHeaderSelector::Hash(h));
    assert_eq!(m, "get_block_header_by_hash");
    match p {
        RpcParams::Named(es) => assert_eq!(es, vec![(s("hash"), JsonValue::Str(s(HEX64)))]),
        other => panic!("expected a named payload, got {:?}", other),
    }

    let (m, p) = daemon::get_block_header_request(GetBlockHeaderSelector::Height(33));
    assert_eq!(m, "get_block_header_by_height");
    match p {
        RpcParams::Named(es) => assert_eq!(es, vec![(s("height"), JsonValue::Num(33))]),
        other => panic!("expected a named payload, got {:?}", other),
    }
}

#[test]
fn block_header_through_driver() {
    let body = obj(vec![("block_header", header_obj(1200))]);
    let caller = ScriptedCaller::new(vec![RemoteResult::Value(body)]);
    let mut d = RpcClient::new(caller).daemon();
    let h = d.get_block_header(GetBlockHeaderSelector::Height(1200)).unwrap();
    assert_eq!(h.height, 1200);
    assert_eq!(h.reward, 600);
    assert!(!h.orphan_status);
}

#[test]
fn block_headers_range_decodes_all() {
    let body = obj(vec![
        ("status", JsonValue::Str(s("OK"))),
        ("untrusted", JsonValue::Bool(false)),
        (
            "headers",
            JsonValue::Arr(vec![header_obj(10), header_obj(11), header_obj(12)]),
        ),
    ]);
    let caller = ScriptedCaller::new(vec![RemoteResult::Value(body)]);
    let mut d = RpcClient::new(caller).daemon();
    let (headers, untrusted) = d.get_block_headers_range(10, 12).unwrap();
    assert_eq!(headers.len(), 3);
    assert_eq!(headers[1].height, 11);
    assert!(!untrusted);
}

#[test]
fn block_headers_range_params_name_both_bounds() {
    match daemon::get_block_headers_range_params(10, 12) {
        RpcParams::Named(es) => {
            assert_eq!(
                es,
                vec![
                    (s("start_height"), JsonValue::Num(10)),
                    (s("end_height"), JsonValue::Num(12)),
                ]
            );
        }
        other => panic!("expected a named payload, got {:?}", other),
    }
}

#[test]
fn block_template_through_driver() {
    let body = obj(vec![
        ("status", JsonValue::Str(s("OK"))),
        ("difficulty", JsonValue::Num(9000)),
        ("expected_reward", JsonValue::Num(777)),
        ("height", JsonValue::Num(2000)),
        ("reserved_offset", JsonValue::Num(130)),
        ("blocktemplate_blob", JsonValue::Str(s("00ff1a"))),
        ("prev_hash", JsonValue::Str(s(HEX64))),
    ]);
    let caller = ScriptedCaller::new(vec![RemoteResult::Value(body)]);
    let mut d = RpcClient::new(caller).daemon();
    let t = d
        .get_block_template(Address { text: s("9xaddr") }, 60)
        .unwrap();
    assert_eq!(t.difficulty, 9000);
    assert_eq!(t.blocktemplate_blob, vec![0x00, 0xff, 0x1a]);
    assert_eq!(t.prev_hash, HashDigest::from_hex(HEX64).unwrap());
}

#[test]
fn generate_blocks_through_regtest_driver() {
    let body = obj(vec![
        ("status", JsonValue::Str(s("OK"))),
        ("height", JsonValue::Num(321)),
    ]);
    let caller = ScriptedCaller::new(vec![RemoteResult::Value(body)]);
    let mut rt = RpcClient::new(caller).daemon().regtest();
    assert_eq!(rt.generate_blocks(4, Address { text: s("9xaddr") }), Ok(321));
}

#[test]
fn sign_transfer_round_trips_hex_lists() {
    let body = obj(vec![
        ("signed_txset", JsonValue::Str(s("a1b2"))),
        ("tx_hash_list", JsonValue::Arr(vec![JsonValue::Str(s(HEX64))])),
        ("tx_raw_list", JsonValue::Arr(vec![JsonValue::Str(s("ff00"))])),
    ]);
    let out = wallet::sign_transfer_from_response(RemoteResult::Value(body)).unwrap();
    assert_eq!(out.signed_txset, vec![0xa1, 0xb2]);
    assert_eq!(out.tx_hash_list, vec![HashDigest::from_hex(HEX64).unwrap()]);
    assert_eq!(out.tx_raw_list, vec![vec![0xff, 0x00]]);
}

#[test]
fn sign_transfer_params_carry_hex_and_flag() {
    match wallet::sign_transfer_params(&vec![0xde, 0xad]) {
        RpcParams::Named(es) => {
            assert_eq!(
                es,
                vec![
                    (s("unsigned_txset"), JsonValue::Str(s("dead"))),
                    (s("export_raw"), JsonValue::Bool(true)),
                ]
            );
        }
        other => panic!("expected a named payload, got {:?}", other),
    }
}

#[test]
fn export_key_images_defaults_to_empty() {
    let body = obj(vec![]);
    assert_eq!(
        wallet::export_key_images_from_response(RemoteResult::Value(body)),
        Ok(vec![])
    );
}

#[test]
fn key_images_wire_round_trip() {
    let body = obj(vec![(
        "signed_key_images",
        JsonValue::Arr(vec![obj(vec![
            ("key_image", JsonValue::Str(s("0a0b"))),
            ("signature", JsonValue::Str(s("0c0d"))),
        ])]),
    )]);
    let images = wallet::export_key_images_from_response(RemoteResult::Value(body)).unwrap();
    assert_eq!(images.len(), 1);
    assert_eq!(images[0].key_image, vec![0x0a, 0x0b]);
    assert_eq!(images[0].signature, vec![0x0c, 0x0d]);

    match wallet::import_key_images_params(&images) {
        RpcParams::Named(es) => {
            assert_eq!(es.len(), 1);
            assert_eq!(es[0].0, s("signed_key_images"));
            match &es[0].1 {
                JsonValue::Arr(a) => {
                    assert_eq!(
                        a[0],
                        obj(vec![
                            ("key_image", JsonValue::Str(s("0a0b"))),
                            ("signature", JsonValue::Str(s("0c0d"))),
                        ])
                    );
                }
                other => panic!("expected an array of key images, got {:?}", other),
            }
        }
        other => panic!("expected a named payload, got {:?}", other),
    }
}

#[test]
fn bulk_payments_default_to_empty() {
    let body = obj(vec![]);
    assert_eq!(
        wallet::get_bulk_payments_from_response(RemoteResult::Value(body)),
        Ok(vec![])
    );
}

#[test]
fn check_tx_key_rejects_zero_confirmations() {
    let body = obj(vec![
        ("confirmations", JsonValue::Num(0)),
        ("in_pool", JsonValue::Bool(false)),
        ("received", JsonValue::Num(5)),
    ]);
    assert_eq!(
        wallet::check_tx_key_from_response(RemoteResult::Value(body)),
        Err(Error::Decode(DecodeError::OutOfRange))
    );
}

#[test]
fn block_hash_failure_kinds_survive_to_the_method() {
    let odd = RemoteResult::Value(JsonValue::Str(s("abc")));
    assert_eq!(
        daemon::on_get_block_hash_from_response(odd),
        Err(Error::Decode(DecodeError::InvalidHex))
    );
    let short = RemoteResult::Value(JsonValue::Str(s("00ff")));
    assert_eq!(
        daemon::on_get_block_hash_from_response(short),
        Err(Error::Decode(DecodeError::WrongLength))
    );
}

#[test]
fn view_key_failure_kinds_survive_to_the_method() {
    let body = obj(vec![("key", JsonValue::Str(s("zz")))]);
    assert_eq!(
        wallet::query_view_key_from_response(RemoteResult::Value(body)),
        Err(Error::Decode(DecodeError::InvalidHex))
    );
    let body = obj(vec![("key", JsonValue::Str(s("00ff")))]);
    assert_eq!(
        wallet::query_view_key_from_response(RemoteResult::Value(body)),
        Err(Error::Decode(DecodeError::WrongLength))
    );
}

#[test]
fn bad_status_survives_to_the_template_method() {
    let body = obj(vec![
        ("status", JsonValue::Str(s("BUSY"))),
        ("difficulty", JsonValue::Num(9000)),
    ]);
    assert_eq!(
        daemon::get_block_template_from_response(RemoteResult::Value(body)),
        Err(Error::Decode(DecodeError::BadStatus(s("BUSY"))))
    );
}

#[test]
fn block_headers_range_rejects_malformed_element() {
    let bad = obj(vec![("height", JsonValue::Num(11))]);
    let body = obj(vec![
        ("status", JsonValue::Str(s("OK"))),
        ("untrusted", JsonValue::Bool(false)),
        ("headers", JsonValue::Arr(vec![header_obj(10), bad])),
    ]);
    match daemon::get_block_headers_range_from_response(RemoteResult::Value(body)) {
        Err(Error::Decode(_)) => {}
        other => panic!("expected a decode failure, got {:?}", other),
    }
}

#[test]
fn submit_block_passes_status_string() {
    let caller = ScriptedCaller::new(vec![RemoteResult::Value(JsonValue::Str(s("OK")))]);
    let mut d = RpcClient::new(caller).daemon();
    assert_eq!(d.submit_block(s("blob")), Ok(s("OK")));
}
