use routerpay::abi::{
    check_fits_encoder, check_frame, read_small_word, text_byte_len, AbiKind, AbiToken,
};
use routerpay::contract::instantiate;
use routerpay::errors::{ErrorKind, LedgerError};
use routerpay::execution::{
    create_stream, enroll_remote_contract, map_chain_type, update_whitelist_address,
};
use routerpay::host::{Api, Coin, Deps, Env, MessageInfo, Querier};
use routerpay::inquiry::{inquiry_for_sudo, Inquiry};
use routerpay::ledger::Ledger;
use routerpay::msg::{InstantiateMsg, SudoMsg, CREATE_OUTBOUND_REPLY_ID};
use routerpay::query::get_routerpay_metadata;
use routerpay::response::{EventKind, OutMsg, ReplyOn};
use routerpay::stream::OutboundInfo;
use routerpay::strmap::StrMap;
use routerpay::sudo::{
    decode_withdraw_request, handle_sudo, handle_sudo_request, request_from_tokens,
    WithdrawRequest,
};
use routerpay::withdrawal::{
    check_packet_encodable, encode_payment_packet, withdraw_on_other_chain, withdraw_salary,
};

const OWN_CHAIN: &str = "router_9000-1";
const EVM_CHAIN: &str = "80001";
const COSMOS_CHAIN: &str = "osmosis-1";
const LEDGER_ACCOUNT: &str = "vault";

fn s(text: &str) -> String {
    text.to_string()
}

fn word(n: u128) -> Vec<u8> {
    let mut out = vec![0u8; 16];
    out.extend_from_slice(&n.to_be_bytes());
    out
}

fn tail(bytes: &[u8]) -> Vec<u8> {
    let mut out = word(bytes.len() as u128);
    out.extend_from_slice(bytes);
    while out.len() % 32 != 0 {
        out.push(0);
    }
    out
}

fn request_payload(
    dst_chain: &str,
    sender: &[u8],
    recipient: &str,
    stream_id: u128,
    max_amount: u128,
) -> Vec<u8> {
    let t0 = tail(dst_chain.as_bytes());
    let t1 = tail(sender);
    let t2 = tail(recipient.as_bytes());
    let mut out = word(160);
    out.extend(word(160 + t0.len() as u128));
    out.extend(word(160 + t0.len() as u128 + t1.len() as u128));
    out.extend(word(stream_id));
    out.extend(word(max_amount));
    out.extend(t0);
    out.extend(t1);
    out.extend(t2);
    out
}

fn block(time: u64) -> Env {
    Env { block_time: time, chain_id: s(OWN_CHAIN), contract_address: s(LEDGER_ACCOUNT) }
}

fn caller(sender: &str) -> MessageInfo {
    MessageInfo { sender: s(sender), funds: vec![] }
}

fn host(balance: u128) -> Deps {
    let mut route_balances = StrMap::new();
    route_balances.insert(s(LEDGER_ACCOUNT), balance);
    let mut gas_prices = StrMap::new();
    gas_prices.insert(s(OWN_CHAIN), 5u64);
    gas_prices.insert(s(EVM_CHAIN), 7u64);
    Deps {
        api: Api { valid_addresses: vec![s("admin"), s("alice"), s("bob")] },
        querier: Querier { route_balances, gas_prices },
    }
}

fn evm_sender() -> Vec<u8> {
    let mut bytes = vec![0xABu8; 20];
    bytes[19] = 0x01;
    bytes
}

fn evm_sender_text() -> String {
    let mut text = s("0x");
    for byte in evm_sender() {
        text.push_str(&format!("{:02x}", byte));
    }
    text
}

fn ledger_with_remote_parties() -> Ledger {
    let mut store = Ledger::new();
    instantiate(
        &mut store,
        InstantiateMsg {
            owner: s("admin"),
            dst_gas_limit: 300_000,
            ack_gas_limit: 200_000,
            relayer_fee: 11,
        },
    )
    .unwrap();
    let deps = host(0);
    let admin = caller("admin");
    enroll_remote_contract(&mut store, &deps, &admin, s(EVM_CHAIN), s("0xABCdef")).unwrap();
    enroll_remote_contract(&mut store, &deps, &admin, s(COSMOS_CHAIN), s("osmo1gate")).unwrap();
    map_chain_type(&mut store, &deps, &admin, s(EVM_CHAIN), 2).unwrap();
    map_chain_type(&mut store, &deps, &admin, s(COSMOS_CHAIN), 3).unwrap();
    create_stream(
        &mut store,
        &deps,
        &block(1_000),
        &admin,
        Some(vec![(s(COSMOS_CHAIN), s("carol"))]),
        1_000,
        2_592_000,
        s("alice"),
        None,
    )
    .unwrap();
    update_whitelist_address(
        &mut store,
        &caller("alice"),
        0,
        evm_sender_text(),
        s(EVM_CHAIN),
        true,
    )
    .unwrap();
    store
}

#[test]
fn payment_packet_is_the_encoding_of_contract_and_payload() {
    let packet = encode_payment_packet(&s("0xabc"), 5, &s("bob"));
    let mut payload = word(5);
    payload.extend(word(64));
    payload.extend(tail(b"bob"));
    assert_eq!(payload.len(), 128);
    let mut expected = word(64);
    expected.extend(word(128));
    expected.extend(tail(b"0xabc"));
    expected.extend(tail(&payload));
    assert_eq!(packet.len(), 288);
    assert_eq!(packet, expected);
}

#[test]
fn payment_packet_carries_amounts_beyond_64_bits() {
    let amount: u128 = (7u128 << 64) + 9;
    let packet = encode_payment_packet(&s("c"), amount, &s(""));
    let mut payload = word(amount);
    payload.extend(word(64));
    payload.extend(tail(b""));
    let mut expected = word(64);
    expected.extend(word(128));
    expected.extend(tail(b"c"));
    expected.extend(tail(&payload));
    assert_eq!(packet, expected);
}

#[test]
fn dispatch_hands_the_request_to_the_messaging_layer() {
    let mut store = ledger_with_remote_parties();
    let response = withdraw_on_other_chain(
        &mut store,
        &host(1_000),
        &block(1_010),
        0,
        Some(7),
        s("0xRecipient"),
        s(EVM_CHAIN),
        s("alice"),
        s(OWN_CHAIN),
    )
    .unwrap();
    let mut metadata: Vec<u8> = Vec::new();
    metadata.extend_from_slice(&300_000u64.to_be_bytes());
    metadata.extend_from_slice(&7u64.to_be_bytes());
    metadata.extend_from_slice(&200_000u64.to_be_bytes());
    metadata.extend_from_slice(&5u64.to_be_bytes());
    metadata.extend_from_slice(&11u128.to_be_bytes());
    metadata.push(3);
    metadata.push(0);
    assert_eq!(metadata.len(), 50);
    assert_eq!(
        response.messages,
        vec![OutMsg::CrosschainCall {
            reply_id: CREATE_OUTBOUND_REPLY_ID,
            reply_on: ReplyOn::Always,
            version: 1,
            route_amount: 7,
            route_recipient: s("0xRecipient"),
            dest_chain_id: s(EVM_CHAIN),
            request_metadata: metadata,
            request_packet: encode_payment_packet(&s("0xabcdef"), 7, &s("0xRecipient")),
        }]
    );
    assert_eq!(response.events.len(), 1);
    assert_eq!(response.events[0].kind, EventKind::WithdrawOnOtherChain);
    assert_eq!(
        store.temp_outbound_info,
        Some(OutboundInfo { stream_id: 0, total_amount_to_be_paid: 7, paid_to_sec: 1_007 })
    );
    let stream = get_routerpay_metadata(&store, 0).unwrap();
    assert!(stream.is_sending);
    assert_eq!(stream.last_withdrawn_at, 1_000);
}

#[test]
fn dispatch_needs_a_registered_destination_and_gas_prices() {
    let mut store = ledger_with_remote_parties();
    let before = store.clone();
    let res = withdraw_salary(
        &mut store,
        &host(1_000),
        &block(1_010),
        0,
        None,
        s("0xrecipient"),
        Some(s("unheard-of")),
        s("alice"),
        s(OWN_CHAIN),
    );
    assert_eq!(res, Err(LedgerError::DstChainNotSupported));
    assert_eq!(LedgerError::DstChainNotSupported.kind(), ErrorKind::DstChainNotSupported);
    let res = withdraw_salary(
        &mut store,
        &host(1_000),
        &block(1_010),
        0,
        None,
        s("osmo1recipient"),
        Some(s(COSMOS_CHAIN)),
        s("alice"),
        s(OWN_CHAIN),
    );
    assert_eq!(res, Err(LedgerError::GasPriceUnavailable));
    assert_eq!(store, before);
}

#[test]
fn request_payload_decodes_to_its_fields() {
    let payload = request_payload("80001", &evm_sender(), "Bob", 3, 1_000);
    assert_eq!(
        decode_withdraw_request(&payload),
        Ok(WithdrawRequest {
            dst_chain_id: s("80001"),
            sender: evm_sender(),
            recipient: s("Bob"),
            stream_id: 3,
            max_amount: 1_000,
        })
    );
    let payload = request_payload("", b"", "", u64::MAX as u128, u128::MAX);
    assert_eq!(
        decode_withdraw_request(&payload),
        Ok(WithdrawRequest {
            dst_chain_id: s(""),
            sender: vec![],
            recipient: s(""),
            stream_id: u64::MAX,
            max_amount: u128::MAX,
        })
    );
}

#[test]
fn malformed_payloads_are_decoding_failures() {
    let good = request_payload("80001", &evm_sender(), "bob", 3, 1_000);
    assert_eq!(decode_withdraw_request(&vec![]), Err(LedgerError::DecodingFailure));
    assert_eq!(
        decode_withdraw_request(&good[..good.len() - 30].to_vec()),
        Err(LedgerError::DecodingFailure)
    );
    assert!(decode_withdraw_request(&good[..good.len() - 29].to_vec()).is_ok());
    assert_eq!(decode_withdraw_request(&good[..159].to_vec()), Err(LedgerError::DecodingFailure));
    let mut far_place = good.clone();
    far_place[28] = 0xFF;
    assert_eq!(decode_withdraw_request(&far_place), Err(LedgerError::DecodingFailure));
    let mut huge_place = good.clone();
    huge_place[0] = 1;
    assert_eq!(decode_withdraw_request(&huge_place), Err(LedgerError::DecodingFailure));
    let mut long_text = good.clone();
    long_text[160 + 31] = 200;
    assert_eq!(decode_withdraw_request(&long_text), Err(LedgerError::DecodingFailure));
    let wide_id = request_payload("80001", &evm_sender(), "bob", 1u128 << 64, 1_000);
    assert_eq!(decode_withdraw_request(&wide_id), Err(LedgerError::DecodingFailure));
    let mut wide_cap = good.clone();
    wide_cap[128 + 15] = 1;
    assert_eq!(decode_withdraw_request(&wide_cap), Err(LedgerError::DecodingFailure));
    assert_eq!(LedgerError::DecodingFailure.kind(), ErrorKind::DecodingFailure);
}

#[test]
fn tokens_that_are_no_request_are_refused() {
    let tokens = vec![
        Some(AbiToken::Text(s("80001"))),
        Some(AbiToken::Bytes(vec![1, 2])),
        Some(AbiToken::Text(s("bob"))),
        Some(AbiToken::Uint([4, 0, 0, 0])),
        Some(AbiToken::Uint([5, 6, 0, 0])),
    ];
    assert_eq!(
        request_from_tokens(tokens.clone()),
        Ok(WithdrawRequest {
            dst_chain_id: s("80001"),
            sender: vec![1, 2],
            recipient: s("bob"),
            stream_id: 4,
            max_amount: 5 + (6u128 << 64),
        })
    );
    let mut short = tokens.clone();
    short.pop();
    assert_eq!(request_from_tokens(short), Err(LedgerError::DecodingFailure));
    let mut swapped = tokens.clone();
    swapped.swap(0, 1);
    assert_eq!(request_from_tokens(swapped), Err(LedgerError::DecodingFailure));
    let mut other = tokens.clone();
    other[2] = None;
    assert_eq!(request_from_tokens(other), Err(LedgerError::DecodingFailure));
    let mut wide = tokens.clone();
    wide[3] = Some(AbiToken::Uint([4, 0, 0, 1]));
    assert_eq!(request_from_tokens(wide), Err(LedgerError::DecodingFailure));
    let mut wide = tokens;
    wide[4] = Some(AbiToken::Uint([5, 6, 1, 0]));
    assert_eq!(request_from_tokens(wide), Err(LedgerError::DecodingFailure));
}

#[test]
fn frames_are_checked_word_by_word() {
    let data = word(300);
    assert_eq!(read_small_word(&data, 0), Some(300));
    assert_eq!(read_small_word(&data, 1), None);
    let mut marked = data.clone();
    marked[27] = 1;
    assert_eq!(read_small_word(&marked, 0), None);
    assert_eq!(read_small_word(&word(0xFFFF_FFFF), 0), Some(0xFFFF_FFFF));
    assert!(check_frame(&vec![], &vec![]));
    assert!(check_frame(&vec![AbiKind::Uint(256)], &word(1)));
    assert!(!check_frame(&vec![AbiKind::Uint(256), AbiKind::Uint(8)], &word(1)));
    let mut text = word(32);
    text.extend(tail(b"hi"));
    assert!(check_frame(&vec![AbiKind::Text], &text));
    assert!(!check_frame(&vec![AbiKind::Bytes], &text[..text.len() - 31].to_vec()));
}

#[test]
fn request_from_a_whitelisted_address_withdraws_locally() {
    let mut store = ledger_with_remote_parties();
    let payload = request_payload("", &evm_sender(), "BOB", 0, 4);
    let response = handle_sudo_request(
        &mut store,
        &host(1_000),
        &block(1_010),
        s("0xABCDEF"),
        s(EVM_CHAIN),
        9,
        payload,
    )
    .unwrap();
    assert_eq!(
        response.messages,
        vec![OutMsg::BankSend { to_address: s("bob"), amount: 4 }]
    );
    assert_eq!(get_routerpay_metadata(&store, 0).unwrap().last_withdrawn_at, 1_004);
}

#[test]
fn request_without_a_cap_settles_everything() {
    let mut store = ledger_with_remote_parties();
    let payload = request_payload(OWN_CHAIN, b"carol", "bob", 0, 0);
    let msg = SudoMsg::HandleIReceive {
        request_sender: s("osmo1gate"),
        src_chain_id: s(COSMOS_CHAIN),
        request_identifier: 1,
        payload,
    };
    let response = handle_sudo(&mut store, &host(1_000), &block(1_010), msg).unwrap();
    assert_eq!(
        response.messages,
        vec![OutMsg::BankSend { to_address: s("bob"), amount: 10 }]
    );
    assert_eq!(get_routerpay_metadata(&store, 0).unwrap().last_withdrawn_at, 1_010);
}

#[test]
fn request_for_another_chain_is_dispatched() {
    let mut store = ledger_with_remote_parties();
    let payload = request_payload(EVM_CHAIN, b"carol", "0xDEAD", 0, 0);
    let response = handle_sudo_request(
        &mut store,
        &host(1_000),
        &block(1_010),
        s("osmo1gate"),
        s(COSMOS_CHAIN),
        1,
        payload,
    )
    .unwrap();
    match &response.messages[0] {
        OutMsg::CrosschainCall { route_amount, route_recipient, dest_chain_id, .. } => {
            assert_eq!(*route_amount, 10);
            assert_eq!(route_recipient, "0xdead");
            assert_eq!(dest_chain_id, EVM_CHAIN);
        }
        other => panic!("{:?}", other),
    }
    assert!(get_routerpay_metadata(&store, 0).unwrap().is_sending);
}

#[test]
fn acknowledgements_are_routed() {
    let mut store = ledger_with_remote_parties();
    let msg = SudoMsg::HandleIAck {
        request_identifier: 4,
        exec_flag: true,
        exec_data: vec![],
        refund_amount: Coin { denom: s("route"), amount: 0 },
    };
    assert_eq!(
        handle_sudo(&mut store, &host(0), &block(1_010), msg),
        Err(LedgerError::PendingRecordMissing)
    );
}

#[test]
fn requests_are_refused_for_what_is_wrong_with_them() {
    let mut store = ledger_with_remote_parties();
    let before = store.clone();
    let deps = host(1_000);
    let good = request_payload("", &evm_sender(), "bob", 0, 4);
    let mut ask = |sender: &str, chain: &str, payload: Vec<u8>| {
        handle_sudo_request(&mut store, &deps, &block(1_010), s(sender), s(chain), 9, payload)
    };
    assert_eq!(ask("0xother", EVM_CHAIN, good.clone()), Err(LedgerError::InvalidCaller));
    assert_eq!(ask("0xabcdef", "unheard-of", good.clone()), Err(LedgerError::InvalidCaller));
    assert_eq!(ask("0xabcdef", EVM_CHAIN, vec![1, 2, 3]), Err(LedgerError::DecodingFailure));
    let short_sender = request_payload("", &[1, 2, 3], "bob", 0, 4);
    assert_eq!(ask("0xabcdef", EVM_CHAIN, short_sender), Err(LedgerError::DecodingFailure));
    let not_text = request_payload("", &[0xFF, 0xFE], "bob", 0, 4);
    assert_eq!(ask("osmo1gate", COSMOS_CHAIN, not_text), Err(LedgerError::DecodingFailure));
    let stranger = request_payload("", b"dave", "bob", 0, 4);
    assert_eq!(ask("osmo1gate", COSMOS_CHAIN, stranger), Err(LedgerError::NotAuthorized));
    let no_stream = request_payload("", b"carol", "bob", 8, 4);
    assert_eq!(ask("osmo1gate", COSMOS_CHAIN, no_stream), Err(LedgerError::StreamNotFound));
    assert_eq!(LedgerError::InvalidCaller.kind(), ErrorKind::Unauthorized);
    assert_eq!(store, before);
}

#[test]
fn request_from_a_chain_without_an_address_encoding_is_fatal() {
    let mut store = ledger_with_remote_parties();
    store.chain_types = StrMap::new();
    let payload = request_payload("", b"carol", "bob", 0, 4);
    let res = handle_sudo_request(
        &mut store,
        &host(1_000),
        &block(1_010),
        s("osmo1gate"),
        s(COSMOS_CHAIN),
        1,
        payload,
    );
    assert_eq!(res, Err(LedgerError::ChainTypeUnknown));
    assert!(LedgerError::ChainTypeUnknown.is_fatal());
}

#[test]
fn host_is_asked_about_what_a_request_names() {
    let msg = SudoMsg::HandleIReceive {
        request_sender: s("0xgate"),
        src_chain_id: s(EVM_CHAIN),
        request_identifier: 1,
        payload: request_payload(COSMOS_CHAIN, &evm_sender(), "BoB", 0, 4),
    };
    assert_eq!(
        inquiry_for_sudo(&block(5), &msg),
        Inquiry { addresses: vec![s("bob")], chains: vec![s(OWN_CHAIN), s(COSMOS_CHAIN)] }
    );
}

#[test]
fn long_texts_are_dispatched_as_long_as_the_encoder_can_take_them() {
    let mut store = ledger_with_remote_parties();
    let long = "r".repeat(0x1_0001);
    assert_eq!(text_byte_len(&long), 0x1_0001);
    assert!(check_packet_encodable(&s("0xabcdef"), &long));
    let packet = encode_payment_packet(&s("0xabcdef"), 10, &long);
    assert_eq!(packet.len(), 224 + 32 + 0x1_0020);
    let response = withdraw_salary(
        &mut store,
        &host(1_000),
        &block(1_010),
        0,
        None,
        long.clone(),
        Some(s(EVM_CHAIN)),
        s("alice"),
        s(OWN_CHAIN),
    )
    .unwrap();
    match &response.messages[0] {
        OutMsg::CrosschainCall { route_recipient, request_packet, .. } => {
            assert_eq!(route_recipient, &long);
            assert_eq!(request_packet, &packet);
        }
        other => panic!("{:?}", other),
    }
}

#[test]
fn encoder_takes_what_it_can_count_and_reserve() {
    assert!(check_fits_encoder(0));
    assert!(check_fits_encoder(288));
    assert!(check_fits_encoder(u32::MAX as u128));
    assert!(!check_fits_encoder(u32::MAX as u128 + 1));
    assert!(!check_fits_encoder(u128::MAX));
    assert!(check_packet_encodable(&s(""), &s("")));
}
