use monero_rpc::client::RpcClient;
use monero_rpc::codec::TransferPriority;
use monero_rpc::error::{DecodeError, Error, RpcError, TransportError};
use monero_rpc::height::{HeightBound, HeightRange};
use monero_rpc::json::JsonValue;
use monero_rpc::models::{Address, GetTransfersCategory, GetTransfersSelector, HashDigest,
    TransferOptions};
use monero_rpc::params::RpcParams;
use monero_rpc::transport::{RemoteResult, ScriptedCaller};
use monero_rpc::wallet;

fn s(t: &str) -> String {
    String::from(t)
}

fn obj(entries: Vec<(&str, JsonValue)>) -> JsonValue {
    JsonValue::Obj(entries.into_iter().map(|(k, v)| (s(k), v)).collect())
}

fn rpc_err(code: i64) -> RemoteResult {
    RemoteResult::Rpc(RpcError { code, message: s("server error") })
}

fn transport_err() -> RemoteResult {
    RemoteResult::Transport(TransportError { reason: s("connection refused") })
}

fn named_entries(p: RpcParams) -> Vec<(String, JsonValue)> {
    match p {
        RpcParams::Named(es) => es,
        other => panic!("expected a named payload, got {:?}", other),
    }
}

fn keys(es: &[(String, JsonValue)]) -> Vec<String> {
    es.iter().map(|e| e.0.clone()).collect()
}

// ----------------------------------------------------------- not-found code

#[test]
fn not_found_code_yields_absent_transfer() {
    let r = wallet::get_transfer_from_response(rpc_err(-8));
    assert_eq!(r, Ok(None));
}

#[test]
fn other_rpc_code_propagates_as_failure() {
    let r = wallet::get_transfer_from_response(rpc_err(-1));
    assert_eq!(r, Err(Error::Rpc(RpcError { code: -1, message: s("server error") })));
}

#[test]
fn not_found_translation_through_driver() {
    let caller = ScriptedCaller::new(vec![rpc_err(-8), rpc_err(-3)]);
    let mut w = RpcClient::new(caller).wallet();
    let txid = HashDigest::from_bytes(vec![7u8; 32]).unwrap();
    assert_eq!(w.get_transfer(txid.clone(), None), Ok(None));
    assert_eq!(
        w.get_transfer(txid, Some(1)),
        Err(Error::Rpc(RpcError { code: -3, message: s("server error") }))
    );
}

// ------------------------------------------------------- transport failures

#[test]
fn transport_failure_stays_transport() {
    let expect = Err::<(u16, u16), _>(Error::Transport(TransportError {
        reason: s("connection refused"),
    }));
    assert_eq!(wallet::get_version_from_response(transport_err()), expect);
    match wallet::get_balance_from_response(transport_err()) {
        Err(Error::Transport(_)) => {}
        other => panic!("expected a transport failure, got {:?}", other),
    }
    match wallet::get_transfer_from_response(transport_err()) {
        Err(Error::Transport(_)) => {}
        other => panic!("expected a transport failure, got {:?}", other),
    }
}

#[test]
fn exhausted_scripted_caller_reports_transport_failure() {
    let caller = ScriptedCaller::new(vec![]);
    let mut w = RpcClient::new(caller).wallet();
    match w.get_height() {
        Err(Error::Transport(_)) => {}
        other => panic!("expected a transport failure, got {:?}", other),
    }
}

// ------------------------------------------------- optional fields omitted

#[test]
fn accounts_params_empty_set_is_the_empty_payload() {
    // an entirely empty parameter set is the distinguished empty payload,
    // not an empty map: the two serialize differently on the wire
    assert_eq!(wallet::get_accounts_params(None), RpcParams::Empty);
    let es = named_entries(wallet::get_accounts_params(Some(s("mine"))));
    assert_eq!(es, vec![(s("tag"), JsonValue::Str(s("mine")))]);
}

#[test]
fn transfers_params_empty_selector_is_the_empty_payload() {
    let selector = GetTransfersSelector {
        category_selector: vec![],
        filter_by_height: None,
        account_index: None,
        subaddr_indices: None,
    };
    assert_eq!(wallet::get_transfers_params(selector), RpcParams::Empty);
}

#[test]
fn create_address_params_omit_absent_label() {
    let es = named_entries(wallet::create_address_params(2, None));
    assert_eq!(keys(&es), vec![s("account_index")]);
    let es = named_entries(wallet::create_address_params(2, Some(s("cold"))));
    assert_eq!(keys(&es), vec![s("account_index"), s("label")]);
    assert_eq!(es[1].1, JsonValue::Str(s("cold")));
}

#[test]
fn get_address_params_omit_absent_indices() {
    let es = named_entries(wallet::get_address_params(0, &None));
    assert_eq!(keys(&es), vec![s("account_index")]);
    let es = named_entries(wallet::get_address_params(0, &Some(vec![1, 4])));
    assert_eq!(keys(&es), vec![s("account_index"), s("address_index")]);
    assert_eq!(
        es[1].1,
        JsonValue::Arr(vec![JsonValue::Num(1), JsonValue::Num(4)])
    );
}

#[test]
fn balance_params_omit_absent_addresses() {
    match wallet::get_balance_params(5, &None) {
        RpcParams::Positional(vs) => assert_eq!(vs, vec![JsonValue::Num(5)]),
        other => panic!("expected a positional payload, got {:?}", other),
    }
    match wallet::get_balance_params(5, &Some(vec![2])) {
        RpcParams::Positional(vs) => {
            assert_eq!(vs.len(), 2);
            assert_eq!(vs[1], JsonValue::Arr(vec![JsonValue::Num(2)]));
        }
        other => panic!("expected a positional payload, got {:?}", other),
    }
}

#[test]
fn transfer_params_omit_absent_options() {
    let dests = vec![(Address { text: s("9xaddr") }, 1000u64)];
    let es = named_entries(wallet::transfer_params(
        &dests,
        TransferPriority::Default,
        TransferOptions::empty(),
    ));
    assert_eq!(
        keys(&es),
        vec![
            s("destinations"),
            s("priority"),
            s("get_tx_key"),
            s("get_tx_hex"),
            s("get_tx_metadata"),
        ]
    );
    assert_eq!(es[1].1, JsonValue::Num(0));
    let mut options = TransferOptions::empty();
    options.mixin = Some(10);
    options.do_not_relay = Some(true);
    let es = named_entries(wallet::transfer_params(
        &dests,
        TransferPriority::Elevated,
        options,
    ));
    assert_eq!(
        keys(&es),
        vec![
            s("destinations"),
            s("priority"),
            s("mixin"),
            s("do_not_relay"),
            s("get_tx_key"),
            s("get_tx_hex"),
            s("get_tx_metadata"),
        ]
    );
    assert_eq!(es[1].1, JsonValue::Num(2));
    assert_eq!(es[2].1, JsonValue::Num(10));
    assert_eq!(es[3].1, JsonValue::Bool(true));
}

#[test]
fn transfer_params_destination_objects() {
    let dests = vec![(Address { text: s("9xaddr") }, 1000u64)];
    let es = named_entries(wallet::transfer_params(
        &dests,
        TransferPriority::Default,
        TransferOptions::empty(),
    ));
    match &es[0].1 {
        JsonValue::Arr(ds) => {
            assert_eq!(
                ds[0],
                obj(vec![
                    ("address", JsonValue::Str(s("9xaddr"))),
                    ("amount", JsonValue::Num(1000)),
                ])
            );
        }
        other => panic!("expected an array of destinations, got {:?}", other),
    }
}

#[test]
fn get_transfer_params_omit_absent_account() {
    let txid = HashDigest::from_bytes(vec![0u8; 32]).unwrap();
    let es = named_entries(wallet::get_transfer_params(&txid, None));
    assert_eq!(keys(&es), vec![s("txid")]);
    let es = named_entries(wallet::get_transfer_params(&txid, Some(3)));
    assert_eq!(keys(&es), vec![s("txid"), s("account_index")]);
}

#[test]
fn get_transfers_params_regions() {
    let selector = GetTransfersSelector {
        category_selector: vec![
            (GetTransfersCategory::In, true),
            (GetTransfersCategory::Out, false),
        ],
        filter_by_height: Some(HeightRange {
            start: HeightBound::Included(5),
            end: HeightBound::Included(10),
        }),
        account_index: None,
        subaddr_indices: None,
    };
    let es = named_entries(wallet::get_transfers_params(selector));
    assert_eq!(
        keys(&es),
        vec![
            s("in"),
            s("out"),
            s("filter_by_height"),
            s("min_height"),
            s("max_height"),
        ]
    );
    assert_eq!(es[0].1, JsonValue::Bool(true));
    assert_eq!(es[1].1, JsonValue::Bool(false));
    assert_eq!(es[2].1, JsonValue::Bool(true));
    assert_eq!(es[3].1, JsonValue::Num(4));
    assert_eq!(es[4].1, JsonValue::Num(10));
}

#[test]
fn get_transfers_params_unbounded_filter_keeps_flag() {
    let selector = GetTransfersSelector {
        category_selector: vec![(GetTransfersCategory::Pool, true)],
        filter_by_height: Some(HeightRange {
            start: HeightBound::Unbounded,
            end: HeightBound::Unbounded,
        }),
        account_index: Some(2),
        subaddr_indices: None,
    };
    let es = named_entries(wallet::get_transfers_params(selector));
    assert_eq!(
        keys(&es),
        vec![s("pool"), s("filter_by_height"), s("account_index")]
    );
    assert_eq!(es[1].1, JsonValue::Bool(true));
}

// -------------------------------------------------------- envelope methods

#[test]
fn block_count_through_driver() {
    let body = obj(vec![
        ("status", JsonValue::Str(s("OK"))),
        ("count", JsonValue::Num(42)),
    ]);
    let caller = ScriptedCaller::new(vec![RemoteResult::Value(body)]);
    let mut d = RpcClient::new(caller).daemon();
    assert_eq!(d.get_block_count(), Ok(42));
}

#[test]
fn block_count_rejects_failed_envelope() {
    let body = obj(vec![
        ("status", JsonValue::Str(s("BUSY"))),
        ("count", JsonValue::Num(42)),
    ]);
    let caller = ScriptedCaller::new(vec![RemoteResult::Value(body)]);
    let mut d = RpcClient::new(caller).daemon();
    assert_eq!(
        d.get_block_count(),
        Err(Error::Decode(DecodeError::BadStatus(s("BUSY"))))
    );
}

#[test]
fn block_count_rejects_zero() {
    let body = obj(vec![
        ("status", JsonValue::Str(s("OK"))),
        ("count", JsonValue::Num(0)),
    ]);
    let caller = ScriptedCaller::new(vec![RemoteResult::Value(body)]);
    let mut d = RpcClient::new(caller).daemon();
    assert_eq!(d.get_block_count(), Err(Error::Decode(DecodeError::OutOfRange)));
}

#[test]
fn block_hash_through_driver() {
    let hex64 = "00112233445566778899aabbccddeeff00112233445566778899aabbccddeeff";
    let caller = ScriptedCaller::new(vec![RemoteResult::Value(JsonValue::Str(s(hex64)))]);
    let mut d = RpcClient::new(caller).daemon();
    assert_eq!(d.on_get_block_hash(7), Ok(HashDigest::from_hex(hex64).unwrap()));
}

#[test]
fn version_splits_into_halves() {
    let body = obj(vec![("version", JsonValue::Num(65536 * 2 + 5))]);
    let caller = ScriptedCaller::new(vec![RemoteResult::Value(body)]);
    let mut w = RpcClient::new(caller).wallet();
    assert_eq!(w.get_version(), Ok((2, 5)));
}

#[test]
fn version_overflow_is_decode_error() {
    let body = obj(vec![("version", JsonValue::Num(0x1_0000_0000))]);
    assert_eq!(
        wallet::get_version_from_response(RemoteResult::Value(body)),
        Err(Error::Decode(DecodeError::Overflow))
    );
}

#[test]
fn get_transfer_decodes_record() {
    let hex64 = "00112233445566778899aabbccddeeff00112233445566778899aabbccddeeff";
    let record = obj(vec![
        ("amount", JsonValue::Num(100)),
        ("fee", JsonValue::Num(2)),
        ("height", JsonValue::Num(900)),
        ("timestamp", JsonValue::Num(1234567)),
        ("txid", JsonValue::Str(s(hex64))),
    ]);
    let body = obj(vec![("transfer", record)]);
    let r = wallet::get_transfer_from_response(RemoteResult::Value(body)).unwrap();
    let t = r.expect("transfer should be present");
    assert_eq!(t.amount, 100);
    assert_eq!(t.fee, 2);
    assert_eq!(t.height, 900);
    assert_eq!(t.txid, HashDigest::from_hex(hex64).unwrap());
}

#[test]
fn get_transfers_reports_present_categories_only() {
    let hex64 = "00112233445566778899aabbccddeeff00112233445566778899aabbccddeeff";
    let record = obj(vec![
        ("amount", JsonValue::Num(100)),
        ("fee", JsonValue::Num(2)),
        ("height", JsonValue::Num(900)),
        ("timestamp", JsonValue::Num(1234567)),
        ("txid", JsonValue::Str(s(hex64))),
    ]);
    let body = obj(vec![("in", JsonValue::Arr(vec![record]))]);
    let out = wallet::get_transfers_from_response(RemoteResult::Value(body)).unwrap();
    assert_eq!(out.len(), 1);
    assert_eq!(out[0].0, GetTransfersCategory::In);
    assert_eq!(out[0].1.len(), 1);
    assert_eq!(out[0].1[0].amount, 100);
}

#[test]
fn payments_decode_from_direct_array() {
    let hex64 = "00112233445566778899aabbccddeeff00112233445566778899aabbccddeeff";
    let payment = obj(vec![
        ("amount", JsonValue::Num(40)),
        ("block_height", JsonValue::Num(700)),
        ("unlock_time", JsonValue::Num(0)),
        ("payment_id", JsonValue::Str(s("0011223344556677"))),
        ("tx_hash", JsonValue::Str(s(hex64))),
    ]);
    let ps = wallet::get_payments_from_response(RemoteResult::Value(JsonValue::Arr(vec![
        payment,
    ])))
    .unwrap();
    assert_eq!(ps.len(), 1);
    assert_eq!(ps[0].amount, 40);
    assert_eq!(ps[0].payment_id.to_hex(), "0011223344556677");
    assert_eq!(ps[0].tx_hash.to_hex(), hex64);
}

#[test]
fn view_key_decodes_key_bytes() {
    let hex64 = "00112233445566778899aabbccddeeff00112233445566778899aabbccddeeff";
    let body = obj(vec![("key", JsonValue::Str(s(hex64)))]);
    let key = wallet::query_view_key_from_response(RemoteResult::Value(body)).unwrap();
    assert_eq!(key.len(), 32);
    assert_eq!(key[0], 0x00);
    assert_eq!(key[1], 0x11);
}

#[test]
fn view_key_params_name_the_key_type() {
    let es = named_entries(wallet::query_view_key_params());
    assert_eq!(es, vec![(s("key_type"), JsonValue::Str(s("view_key")))]);
}

#[test]
fn label_address_params_nest_the_index() {
    let es = named_entries(wallet::label_address_params(2, 7, s("savings")));
    assert_eq!(es.len(), 2);
    assert_eq!(es[0].0, s("index"));
    assert_eq!(
        es[0].1,
        obj(vec![("major", JsonValue::Num(2)), ("minor", JsonValue::Num(7))])
    );
    assert_eq!(es[1], (s("label"), JsonValue::Str(s("savings"))));
}

#[test]
fn label_address_ignores_result_payload() {
    let caller = ScriptedCaller::new(vec![RemoteResult::Value(obj(vec![]))]);
    let mut w = RpcClient::new(caller).wallet();
    assert_eq!(w.label_address(2, 7, s("savings")), Ok(()));
}

#[test]
fn address_index_through_driver() {
    let body = obj(vec![(
        "index",
        obj(vec![("major", JsonValue::Num(1)), ("minor", JsonValue::Num(5))]),
    )]);
    let caller = ScriptedCaller::new(vec![RemoteResult::Value(body)]);
    let mut w = RpcClient::new(caller).wallet();
    assert_eq!(w.get_address_index(Address { text: s("9xaddr") }), Ok((1, 5)));
}

#[test]
fn missing_field_is_decode_error() {
    let body = obj(vec![("balance", JsonValue::Num(10))]);
    assert_eq!(
        wallet::get_balance_from_response(RemoteResult::Value(body)),
        Err(Error::Decode(DecodeError::MissingField(s("unlocked_balance"))))
    );
}

#[test]
fn wrong_type_is_decode_error() {
    let body = obj(vec![
        ("balance", JsonValue::Str(s("10"))),
        ("unlocked_balance", JsonValue::Num(3)),
    ]);
    assert_eq!(
        wallet::get_balance_from_response(RemoteResult::Value(body)),
        Err(Error::Decode(DecodeError::WrongType(s("balance"))))
    );
}
