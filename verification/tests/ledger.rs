use routerpay::contract::{instantiate, migrate};
use routerpay::errors::{ErrorKind, LedgerError};
use routerpay::execution::{
    cancel_stream, create_stream, deposit_route, enroll_remote_contract, handle_execute,
    map_chain_type, update_crosschain_metadata, update_whitelist_address, withdraw_funds,
};
use routerpay::host::{Api, Coin, Deps, Env, MessageInfo, Querier};
use routerpay::ledger::Ledger;
use routerpay::msg::{
    CrosschainRequestResponse, ExecuteMsg, InstantiateMsg, MigrateMsg, Reply, SubMsgResult,
    CREATE_OUTBOUND_REPLY_ID,
};
use routerpay::query::{
    get_accumulated_amount, get_routerpay_metadata, get_user_stream_ids, is_white_listed,
};
use routerpay::reply::{handle_reply, handle_sub_message_failed};
use routerpay::response::{AttrKey, AttrValue, EventKind, OutMsg};
use routerpay::stream::OutboundInfo;
use routerpay::strmap::StrMap;
use routerpay::sudo::handle_sudo_ack;
use routerpay::withdrawal::{
    before_withdraw, withdraw_on_other_chain, withdraw_on_router_chain, withdraw_salary,
};
use routerpay::accrual::WithDrawResponse;

const HOME: &str = "router_9000-1";
const REMOTE: &str = "80001";
const VAULT: &str = "vault";

fn text(s: &str) -> String {
    s.to_string()
}

fn env_at(time: u64) -> Env {
    Env { block_time: time, chain_id: text(HOME), contract_address: text(VAULT) }
}

fn from(sender: &str) -> MessageInfo {
    MessageInfo { sender: text(sender), funds: vec![] }
}

fn deps_with_balance(balance: u128) -> Deps {
    let mut route_balances = StrMap::new();
    route_balances.insert(text(VAULT), balance);
    let mut gas_prices = StrMap::new();
    gas_prices.insert(text(HOME), 5u64);
    gas_prices.insert(text(REMOTE), 7u64);
    Deps {
        api: Api { valid_addresses: vec![text("admin"), text("alice"), text("bob")] },
        querier: Querier { route_balances, gas_prices },
    }
}

fn fresh_ledger() -> Ledger {
    let mut store = Ledger::new();
    let msg = InstantiateMsg {
        owner: text("admin"),
        dst_gas_limit: 300_000,
        ack_gas_limit: 200_000,
        relayer_fee: 11,
    };
    instantiate(&mut store, msg).unwrap();
    store
}

fn ledger_with_stream(start: u64, monthly: u128) -> Ledger {
    let mut store = fresh_ledger();
    let deps = deps_with_balance(0);
    enroll_remote_contract(&mut store, &deps, &from("admin"), text(REMOTE), text("0xABCdef"))
        .unwrap();
    create_stream(
        &mut store,
        &deps,
        &env_at(start),
        &from("admin"),
        None,
        start,
        monthly,
        text("alice"),
        None,
    )
    .unwrap();
    store
}

fn dispatch(store: &mut Ledger, now: u64) {
    withdraw_on_other_chain(
        store,
        &deps_with_balance(1_000_000),
        &env_at(now),
        0,
        None,
        text("0xrecipient"),
        text(REMOTE),
        text("alice"),
        text(HOME),
    )
    .unwrap();
}

fn dispatched(request_identifier: u64) -> Reply {
    Reply {
        id: CREATE_OUTBOUND_REPLY_ID,
        result: SubMsgResult::Dispatched {
            data: Some(CrosschainRequestResponse {
                request_identifier,
                fee_deducted: Coin { denom: text("route"), amount: 1 },
            }),
        },
    }
}

#[test]
fn instantiate_stores_the_settings() {
    let mut store = Ledger::new();
    let msg = InstantiateMsg {
        owner: text("admin"),
        dst_gas_limit: 300_000,
        ack_gas_limit: 200_000,
        relayer_fee: 11,
    };
    let response = instantiate(&mut store, msg).unwrap();
    assert_eq!(response.attributes.len(), 1);
    assert_eq!(response.attributes[0].key, AttrKey::Action);
    assert_eq!(response.attributes[0].value, AttrValue::Text(text("routerpay-init")));
    assert_eq!(store.owner, Some(text("admin")));
    assert_eq!(store.dst_gas_limit, 300_000);
    assert_eq!(store.ack_gas_limit, 200_000);
    assert_eq!(store.relayer_fee, 11);
    assert_eq!(store.stream_indexer, 0);
    let version = store.contract_version.unwrap();
    assert_eq!(version.contract, "routerpay");
    assert_eq!(version.version, "1.0.0");
}

#[test]
fn one_second_at_the_minimum_rate_accrues_one_unit() {
    let store = ledger_with_stream(1_000, 2_592_000);
    assert_eq!(get_accumulated_amount(&store, &env_at(1_000), 0), Ok(0));
    assert_eq!(get_accumulated_amount(&store, &env_at(1_001), 0), Ok(1));
    let stream = get_routerpay_metadata(&store, 0).unwrap();
    assert_eq!(stream.pay_per_sec, 1);
    assert_eq!(stream.start_time, 1_000);
    assert_eq!(stream.last_withdrawn_at, 1_000);
    assert_eq!(stream.created_at, 1_000);
    assert_eq!(stream.recipient_owner, "alice");
    assert!(!stream.is_sending);
}

#[test]
fn create_stream_defaults_the_start_to_the_block_time() {
    let mut store = fresh_ledger();
    let response = create_stream(
        &mut store,
        &deps_with_balance(0),
        &env_at(500),
        &from("admin"),
        None,
        0,
        2_592_000 * 3,
        text("bob"),
        Some(text("salary")),
    )
    .unwrap();
    let stream = get_routerpay_metadata(&store, 0).unwrap();
    assert_eq!(stream.start_time, 500);
    assert_eq!(stream.last_withdrawn_at, 500);
    assert_eq!(stream.pay_per_sec, 3);
    assert_eq!(stream.reason, "salary");
    assert_eq!(store.stream_indexer, 1);
    assert_eq!(
        get_user_stream_ids(&store, &deps_with_balance(0), text("bob")),
        Ok(vec![0])
    );
    assert!(is_white_listed(&store, 0, text(HOME), text("bob")).unwrap());
    assert_eq!(response.events.len(), 1);
    let event = &response.events[0];
    assert_eq!(event.kind, EventKind::StreamCreated);
    let keys: Vec<AttrKey> = event.attributes.iter().map(|a| a.key).collect();
    assert_eq!(
        keys,
        vec![
            AttrKey::StreamId,
            AttrKey::WhitelistedAddresses,
            AttrKey::Recipient,
            AttrKey::CreatedAt,
            AttrKey::CreatedBy,
            AttrKey::StartTime,
            AttrKey::PayPerSec,
            AttrKey::PayPerMonth,
            AttrKey::Reason
        ]
    );
    assert_eq!(event.attributes[0].value, AttrValue::Number(0));
    assert_eq!(event.attributes[1].value, AttrValue::Pairs(None));
    assert_eq!(event.attributes[6].value, AttrValue::Number(3));
    assert_eq!(event.attributes[7].value, AttrValue::Number(2_592_000 * 3));
    assert_eq!(event.attributes[8].value, AttrValue::Text(text("salary")));
}

#[test]
fn create_stream_hands_out_ids_in_order() {
    let mut store = ledger_with_stream(10, 2_592_000);
    let deps = deps_with_balance(0);
    create_stream(
        &mut store,
        &deps,
        &env_at(20),
        &from("admin"),
        Some(vec![(text(REMOTE), text("0xfeed")), (text(REMOTE), text("0xfeed"))]),
        30,
        2_592_000,
        text("alice"),
        None,
    )
    .unwrap();
    assert_eq!(store.stream_indexer, 2);
    assert_eq!(get_user_stream_ids(&store, &deps, text("alice")), Ok(vec![0, 1]));
    let stream = get_routerpay_metadata(&store, 1).unwrap();
    assert_eq!(stream.start_time, 30);
    assert_eq!(stream.created_at, 20);
    assert_eq!(
        stream.whitelisted_addresses.pairs(),
        vec![(text(HOME), text("alice")), (text(REMOTE), text("0xfeed"))]
    );
}

#[test]
fn create_stream_rejects_bad_requests() {
    let deps = deps_with_balance(0);
    let mut store = fresh_ledger();
    let before = store.clone();
    let create = |store: &mut Ledger,
                  who: &str,
                  list: Option<Vec<(String, String)>>,
                  start: u64,
                  monthly: u128,
                  recipient: &str| {
        create_stream(
            store,
            &deps,
            &env_at(100),
            &from(who),
            list,
            start,
            monthly,
            text(recipient),
            None,
        )
    };
    assert_eq!(
        create(&mut store, "alice", None, 100, 2_592_000, "alice"),
        Err(LedgerError::InvalidOwner)
    );
    assert_eq!(
        create(&mut store, "admin", None, 100, 2_592_000, "nobody"),
        Err(LedgerError::InvalidAddress)
    );
    assert_eq!(
        create(&mut store, "admin", None, 100, 2_591_999, "alice"),
        Err(LedgerError::RateTooLow)
    );
    assert_eq!(
        create(&mut store, "admin", None, 99, 2_592_000, "alice"),
        Err(LedgerError::StartTimeInPast)
    );
    assert_eq!(
        create(
            &mut store,
            "admin",
            Some(vec![(text("unknown"), text("0x1"))]),
            100,
            2_592_000,
            "alice"
        ),
        Err(LedgerError::InvalidChainId)
    );
    assert_eq!(store, before);
    store.stream_indexer = u64::MAX;
    assert_eq!(
        create(&mut store, "admin", None, 100, 2_592_000, "alice"),
        Err(LedgerError::Overflow)
    );
}

#[test]
fn operations_of_the_administrator_need_an_administrator() {
    let mut store = Ledger::new();
    let deps = deps_with_balance(0);
    assert_eq!(
        enroll_remote_contract(&mut store, &deps, &from("admin"), text(REMOTE), text("0x1")),
        Err(LedgerError::OwnerNotSet)
    );
    store.owner = Some(text("ghost"));
    assert_eq!(
        map_chain_type(&mut store, &deps, &from("ghost"), text(REMOTE), 2),
        Err(LedgerError::InvalidAddress)
    );
}

#[test]
fn withdrawal_by_a_stranger_is_unauthorized() {
    let mut store = ledger_with_stream(1_000, 2_592_000);
    let before = store.clone();
    let res = withdraw_salary(
        &mut store,
        &deps_with_balance(1_000),
        &env_at(1_010),
        0,
        None,
        text("bob"),
        None,
        text("bob"),
        text(HOME),
    );
    assert_eq!(res, Err(LedgerError::NotAuthorized));
    assert_eq!(LedgerError::NotAuthorized.kind(), ErrorKind::Unauthorized);
    assert_eq!(store, before);
}

#[test]
fn local_withdrawal_pays_and_settles() {
    let mut store = ledger_with_stream(1_000, 2_592_000 * 2);
    let deps = deps_with_balance(1_000);
    let response = withdraw_on_router_chain(
        &mut store,
        &deps,
        &env_at(1_010),
        0,
        None,
        text("bob"),
        text("alice"),
        text(HOME),
    )
    .unwrap();
    assert_eq!(
        response.messages,
        vec![OutMsg::BankSend { to_address: text("bob"), amount: 20 }]
    );
    assert_eq!(response.events.len(), 1);
    assert_eq!(response.events[0].kind, EventKind::WithdrawOnRouterChain);
    assert_eq!(response.events[0].attributes[1].value, AttrValue::Number(20));
    assert_eq!(response.events[0].attributes[2].value, AttrValue::Number(1_000));
    assert_eq!(response.events[0].attributes[3].value, AttrValue::Number(1_010));
    assert_eq!(get_routerpay_metadata(&store, 0).unwrap().last_withdrawn_at, 1_010);
    assert_eq!(get_accumulated_amount(&store, &env_at(1_010), 0), Ok(0));
    assert_eq!(get_accumulated_amount(&store, &env_at(1_013), 0), Ok(6));
    assert!(store.temp_outbound_info.is_none());
    assert!(store.pending_outbound.is_empty());
}

#[test]
fn capped_withdrawal_settles_whole_seconds() {
    let mut store = ledger_with_stream(1_000, 2_592_000 * 3);
    let deps = deps_with_balance(1_000);
    let settled = before_withdraw(
        &store,
        &deps,
        &env_at(1_100),
        0,
        Some(10),
        &text("alice"),
        &text(HOME),
    );
    assert_eq!(
        settled,
        Ok(WithDrawResponse { total_amount_to_be_paid: 9, paid_from_sec: 1_000, paid_to_sec: 1_003 })
    );
    let response = withdraw_salary(
        &mut store,
        &deps,
        &env_at(1_100),
        0,
        Some(10),
        text("bob"),
        Some(text("")),
        text("alice"),
        text(HOME),
    )
    .unwrap();
    assert_eq!(
        response.messages,
        vec![OutMsg::BankSend { to_address: text("bob"), amount: 9 }]
    );
    assert_eq!(get_routerpay_metadata(&store, 0).unwrap().last_withdrawn_at, 1_003);
    assert_eq!(get_accumulated_amount(&store, &env_at(1_100), 0), Ok(291));
}

#[test]
fn withdrawal_checks_fail_in_order() {
    let mut store = ledger_with_stream(1_000, 2_592_000);
    let deps = deps_with_balance(5);
    let check = |store: &Ledger, now: u64, id: u64, who: &str| {
        before_withdraw(store, &deps, &env_at(now), id, None, &text(who), &text(HOME))
    };
    assert_eq!(check(&store, 1_010, 7, "alice"), Err(LedgerError::StreamNotFound));
    assert_eq!(check(&store, 1_010, 0, "bob"), Err(LedgerError::NotAuthorized));
    assert_eq!(check(&store, 999, 0, "alice"), Err(LedgerError::StreamNotStarted));
    assert_eq!(check(&store, 1_010, 0, "alice"), Err(LedgerError::InsufficientBalance));
    assert_eq!(
        check(&store, 1_005, 0, "alice"),
        Ok(WithDrawResponse { total_amount_to_be_paid: 5, paid_from_sec: 1_000, paid_to_sec: 1_005 })
    );
    assert_eq!(
        withdraw_on_router_chain(
            &mut store,
            &deps,
            &env_at(1_005),
            0,
            None,
            text("nobody"),
            text("alice"),
            text(HOME),
        ),
        Err(LedgerError::InvalidAddress)
    );
}

#[test]
fn withdrawal_to_the_own_chain_by_name_is_local() {
    let mut store = ledger_with_stream(1_000, 2_592_000);
    let response = withdraw_salary(
        &mut store,
        &deps_with_balance(100),
        &env_at(1_004),
        0,
        None,
        text("alice"),
        Some(text(HOME)),
        text("alice"),
        text(HOME),
    )
    .unwrap();
    assert_eq!(response.events[0].kind, EventKind::WithdrawOnRouterChain);
    assert!(!get_routerpay_metadata(&store, 0).unwrap().is_sending);
}

#[test]
fn second_withdrawal_while_one_is_in_flight_is_refused() {
    let mut store = ledger_with_stream(1_000, 2_592_000);
    let deps = deps_with_balance(1_000);
    let response = withdraw_salary(
        &mut store,
        &deps,
        &env_at(1_010),
        0,
        None,
        text("0xrecipient"),
        Some(text(REMOTE)),
        text("alice"),
        text(HOME),
    )
    .unwrap();
    assert_eq!(response.events[0].kind, EventKind::WithdrawOnOtherChain);
    let stream = get_routerpay_metadata(&store, 0).unwrap();
    assert!(stream.is_sending);
    assert_eq!(stream.last_withdrawn_at, 1_000);
    assert_eq!(
        store.temp_outbound_info,
        Some(OutboundInfo { stream_id: 0, total_amount_to_be_paid: 10, paid_to_sec: 1_010 })
    );
    let before = store.clone();
    let again = withdraw_salary(
        &mut store,
        &deps,
        &env_at(1_020),
        0,
        None,
        text("0xrecipient"),
        Some(text(REMOTE)),
        text("alice"),
        text(HOME),
    );
    assert_eq!(again, Err(LedgerError::AlreadyPending));
    let local = withdraw_salary(
        &mut store,
        &deps,
        &env_at(1_020),
        0,
        None,
        text("alice"),
        None,
        text("alice"),
        text(HOME),
    );
    assert_eq!(local, Err(LedgerError::AlreadyPending));
    assert_eq!(store, before);
}

#[test]
fn failed_dispatch_is_rolled_back_and_can_be_retried() {
    let mut store = ledger_with_stream(1_000, 2_592_000);
    dispatch(&mut store, 1_010);
    let reply =
        Reply { id: CREATE_OUTBOUND_REPLY_ID, result: SubMsgResult::Failed(text("out of gas")) };
    let response = handle_reply(&mut store, reply).unwrap();
    assert_eq!(response.events.len(), 1);
    assert_eq!(response.events[0].kind, EventKind::OutboundRolledBack);
    assert_eq!(response.events[0].attributes[0].value, AttrValue::Number(0));
    assert_eq!(response.events[0].attributes[1].value, AttrValue::Text(text("out of gas")));
    let stream = get_routerpay_metadata(&store, 0).unwrap();
    assert!(!stream.is_sending);
    assert_eq!(stream.last_withdrawn_at, 1_000);
    assert!(store.temp_outbound_info.is_none());
    assert!(store.pending_outbound.is_empty());
    dispatch(&mut store, 1_020);
    assert_eq!(
        store.temp_outbound_info,
        Some(OutboundInfo { stream_id: 0, total_amount_to_be_paid: 20, paid_to_sec: 1_020 })
    );
}

#[test]
fn dispatch_without_data_is_rolled_back() {
    let mut store = ledger_with_stream(1_000, 2_592_000);
    dispatch(&mut store, 1_010);
    let reply =
        Reply { id: CREATE_OUTBOUND_REPLY_ID, result: SubMsgResult::Dispatched { data: None } };
    let response = handle_reply(&mut store, reply).unwrap();
    assert_eq!(
        response.events[0].attributes[1].value,
        AttrValue::Text(text("No_Binary_Data_Found"))
    );
    assert!(!get_routerpay_metadata(&store, 0).unwrap().is_sending);
    assert!(store.temp_outbound_info.is_none());
}

#[test]
fn roll_back_alone_clears_the_attempt() {
    let mut store = ledger_with_stream(1_000, 2_592_000);
    assert_eq!(handle_sub_message_failed(&mut store), Err(LedgerError::PendingRecordMissing));
    dispatch(&mut store, 1_010);
    let response = handle_sub_message_failed(&mut store).unwrap();
    assert!(response.events.is_empty());
    assert!(response.messages.is_empty());
    assert!(!get_routerpay_metadata(&store, 0).unwrap().is_sending);
    assert!(store.temp_outbound_info.is_none());
}

#[test]
fn roll_back_of_a_cancelled_stream_is_fatal() {
    let mut store = ledger_with_stream(1_000, 2_592_000);
    dispatch(&mut store, 1_010);
    cancel_stream(&mut store, &deps_with_balance(100), &env_at(1_010), &from("admin"), 0, None)
        .unwrap();
    let before = store.clone();
    assert_eq!(handle_sub_message_failed(&mut store), Err(LedgerError::PendingStreamMissing));
    assert!(LedgerError::PendingStreamMissing.is_fatal());
    assert_eq!(store, before);
}

#[test]
fn reply_under_an_unknown_id_is_refused() {
    let mut store = ledger_with_stream(1_000, 2_592_000);
    dispatch(&mut store, 1_010);
    let before = store.clone();
    let reply = Reply { id: 2, result: SubMsgResult::Failed(text("x")) };
    assert_eq!(handle_reply(&mut store, reply), Err(LedgerError::UnknownReplyId(2)));
    assert_eq!(LedgerError::UnknownReplyId(2).message(), "Unknown reply id: 2");
    assert_eq!(store, before);
}

#[test]
fn successful_dispatch_moves_the_attempt_under_its_identifier() {
    let mut store = ledger_with_stream(1_000, 2_592_000);
    assert_eq!(handle_reply(&mut store, dispatched(77)), Err(LedgerError::PendingRecordMissing));
    dispatch(&mut store, 1_010);
    let response = handle_reply(&mut store, dispatched(77)).unwrap();
    assert!(response.events.is_empty());
    assert!(store.temp_outbound_info.is_none());
    assert_eq!(
        store.pending_outbound.get(&77),
        Some(&OutboundInfo { stream_id: 0, total_amount_to_be_paid: 10, paid_to_sec: 1_010 })
    );
    let stream = get_routerpay_metadata(&store, 0).unwrap();
    assert!(stream.is_sending);
    assert_eq!(stream.last_withdrawn_at, 1_000);
}

#[test]
fn failed_delivery_leaves_the_settled_time() {
    let mut store = ledger_with_stream(1_000, 2_592_000);
    dispatch(&mut store, 1_010);
    handle_reply(&mut store, dispatched(77)).unwrap();
    let refund = Coin { denom: text("route"), amount: 0 };
    let response = handle_sudo_ack(&mut store, false, 77, refund).unwrap();
    assert_eq!(response.events[0].kind, EventKind::PayTransferFailed);
    assert_eq!(response.events[0].attributes[0].value, AttrValue::Number(77));
    assert_eq!(response.events[0].attributes[1].value, AttrValue::Number(0));
    let stream = get_routerpay_metadata(&store, 0).unwrap();
    assert_eq!(stream.last_withdrawn_at, 1_000);
    assert!(!stream.is_sending);
    assert!(store.pending_outbound.is_empty());
    dispatch(&mut store, 1_030);
}

#[test]
fn successful_delivery_settles_the_stream() {
    let mut store = ledger_with_stream(1_000, 2_592_000);
    dispatch(&mut store, 1_010);
    handle_reply(&mut store, dispatched(77)).unwrap();
    let refund = Coin { denom: text("route"), amount: 0 };
    let response = handle_sudo_ack(&mut store, true, 77, refund).unwrap();
    assert_eq!(response.events[0].kind, EventKind::PayTransferReceived);
    assert_eq!(response.events[0].attributes[2].key, AttrKey::AmountPaid);
    assert_eq!(response.events[0].attributes[2].value, AttrValue::Number(10));
    let stream = get_routerpay_metadata(&store, 0).unwrap();
    assert_eq!(stream.last_withdrawn_at, 1_010);
    assert!(!stream.is_sending);
    assert!(store.pending_outbound.is_empty());
    assert_eq!(get_accumulated_amount(&store, &env_at(1_015), 0), Ok(5));
}

#[test]
fn acknowledgement_without_a_record_is_fatal() {
    let mut store = ledger_with_stream(1_000, 2_592_000);
    let before = store.clone();
    let refund = Coin { denom: text("route"), amount: 0 };
    let res = handle_sudo_ack(&mut store, true, 5, refund);
    assert_eq!(res, Err(LedgerError::PendingRecordMissing));
    assert_eq!(LedgerError::PendingRecordMissing.kind(), ErrorKind::Fatal);
    assert_eq!(store, before);
}

#[test]
fn acknowledgement_for_a_cancelled_stream_is_fatal() {
    let mut store = ledger_with_stream(1_000, 2_592_000);
    dispatch(&mut store, 1_010);
    handle_reply(&mut store, dispatched(77)).unwrap();
    cancel_stream(&mut store, &deps_with_balance(100), &env_at(1_010), &from("admin"), 0, None)
        .unwrap();
    let before = store.clone();
    let refund = Coin { denom: text("route"), amount: 0 };
    assert_eq!(
        handle_sudo_ack(&mut store, true, 77, refund),
        Err(LedgerError::PendingStreamMissing)
    );
    assert_eq!(store, before);
}

#[test]
fn cancel_beyond_the_balance_leaves_the_stream() {
    let mut store = ledger_with_stream(1_000, 2_592_000);
    let before = store.clone();
    let res =
        cancel_stream(&mut store, &deps_with_balance(9), &env_at(1_010), &from("admin"), 0, None);
    assert_eq!(res, Err(LedgerError::InsufficientBalance));
    assert_eq!(LedgerError::InsufficientBalance.kind(), ErrorKind::InsufficientBalance);
    assert_eq!(store, before);
    assert!(get_routerpay_metadata(&store, 0).is_ok());
}

#[test]
fn cancel_pays_the_owner_and_removes_the_stream() {
    let mut store = ledger_with_stream(1_000, 2_592_000);
    let info = MessageInfo {
        sender: text("admin"),
        funds: vec![Coin { denom: text("route"), amount: 4 }],
    };
    let response = cancel_stream(
        &mut store,
        &deps_with_balance(6),
        &env_at(1_010),
        &info,
        0,
        Some(text("left")),
    )
    .unwrap();
    assert_eq!(
        response.messages,
        vec![OutMsg::BankSend { to_address: text("alice"), amount: 10 }]
    );
    let event = &response.events[0];
    assert_eq!(event.kind, EventKind::StreamCancelled);
    assert_eq!(event.attributes[1].value, AttrValue::Text(text("admin")));
    assert_eq!(event.attributes[2].value, AttrValue::Number(1_010));
    assert_eq!(event.attributes[3].value, AttrValue::Text(text("left")));
    assert_eq!(event.attributes[4].value, AttrValue::Text(text("alice")));
    assert_eq!(event.attributes[5].value, AttrValue::Number(10));
    assert_eq!(get_routerpay_metadata(&store, 0), Err(LedgerError::StreamNotFound));
    assert_eq!(
        get_user_stream_ids(&store, &deps_with_balance(0), text("alice")),
        Ok(vec![])
    );
    assert_eq!(store.stream_indexer, 1);
}

#[test]
fn cancel_of_a_settled_stream_sends_nothing() {
    let mut store = ledger_with_stream(1_000, 2_592_000);
    let response =
        cancel_stream(&mut store, &deps_with_balance(0), &env_at(1_000), &from("admin"), 0, None)
            .unwrap();
    assert!(response.messages.is_empty());
    assert_eq!(response.events[0].attributes[5].value, AttrValue::Number(0));
}

#[test]
fn cancel_rejects_bad_requests() {
    let mut store = ledger_with_stream(1_000, 2_592_000);
    let deps = deps_with_balance(100);
    assert_eq!(
        cancel_stream(&mut store, &deps, &env_at(1_010), &from("alice"), 0, None),
        Err(LedgerError::InvalidOwner)
    );
    assert_eq!(
        cancel_stream(&mut store, &deps, &env_at(1_010), &from("admin"), 3, None),
        Err(LedgerError::StreamNotFound)
    );
    assert_eq!(
        cancel_stream(&mut store, &deps, &env_at(999), &from("admin"), 0, None),
        Err(LedgerError::StreamNotStarted)
    );
    store.streams.get_mut(&0).unwrap().pay_per_sec = u128::MAX;
    assert_eq!(
        cancel_stream(&mut store, &deps, &env_at(1_002), &from("admin"), 0, None),
        Err(LedgerError::Overflow)
    );
    store.streams.get_mut(&0).unwrap().pay_per_sec = 1;
    let rich = MessageInfo {
        sender: text("admin"),
        funds: vec![Coin { denom: text("route"), amount: u128::MAX }],
    };
    assert_eq!(
        cancel_stream(&mut store, &deps, &env_at(1_002), &rich, 0, None),
        Err(LedgerError::Overflow)
    );
    store.user_streams = StrMap::new();
    assert_eq!(
        cancel_stream(&mut store, &deps, &env_at(1_010), &from("admin"), 0, None),
        Err(LedgerError::UserIndexMissing)
    );
}

#[test]
fn whitelist_entries_are_kept_in_lower_case() {
    let mut store = ledger_with_stream(1_000, 2_592_000);
    let response = update_whitelist_address(
        &mut store,
        &from("alice"),
        0,
        text("0xABCD"),
        text(REMOTE),
        true,
    )
    .unwrap();
    assert_eq!(response.events[0].kind, EventKind::WhiteListedAddress);
    assert_eq!(response.events[0].attributes[0].value, AttrValue::Text(text("0xabcd")));
    assert_eq!(is_white_listed(&store, 0, text(REMOTE), text("0xabcd")), Ok(true));
    assert_eq!(is_white_listed(&store, 0, text(REMOTE), text("0xABCD")), Ok(false));
    assert_eq!(
        update_whitelist_address(&mut store, &from("alice"), 0, text("0xabcD"), text(REMOTE), true),
        Err(LedgerError::AlreadyWhitelisted)
    );
    let response = update_whitelist_address(
        &mut store,
        &from("alice"),
        0,
        text("0xAbCd"),
        text(REMOTE),
        false,
    )
    .unwrap();
    assert_eq!(response.events[0].kind, EventKind::BlackListedAddress);
    assert_eq!(is_white_listed(&store, 0, text(REMOTE), text("0xabcd")), Ok(false));
    assert_eq!(
        update_whitelist_address(&mut store, &from("alice"), 0, text("0xabcd"), text(REMOTE), false),
        Err(LedgerError::NotWhitelisted)
    );
    assert_eq!(
        update_whitelist_address(&mut store, &from("admin"), 0, text("0xabcd"), text(REMOTE), true),
        Err(LedgerError::NotAuthorized)
    );
    assert_eq!(
        update_whitelist_address(&mut store, &from("alice"), 9, text("0xabcd"), text(REMOTE), true),
        Err(LedgerError::StreamNotFound)
    );
}

#[test]
fn whitelisted_party_may_withdraw() {
    let mut store = ledger_with_stream(1_000, 2_592_000);
    update_whitelist_address(&mut store, &from("alice"), 0, text("carol"), text(HOME), true)
        .unwrap();
    let response = withdraw_salary(
        &mut store,
        &deps_with_balance(100),
        &env_at(1_002),
        0,
        None,
        text("bob"),
        None,
        text("carol"),
        text(HOME),
    )
    .unwrap();
    assert_eq!(
        response.messages,
        vec![OutMsg::BankSend { to_address: text("bob"), amount: 2 }]
    );
}

#[test]
fn registries_and_settings_are_the_administrators() {
    let mut store = fresh_ledger();
    let deps = deps_with_balance(0);
    let response =
        enroll_remote_contract(&mut store, &deps, &from("admin"), text(REMOTE), text("0xAbC"))
            .unwrap();
    assert_eq!(response.events[0].kind, EventKind::EnrolledRemoteContract);
    assert_eq!(response.events[0].attributes[1].value, AttrValue::Text(text("0xabc")));
    assert_eq!(store.remote_contracts.get(&text(REMOTE)), Some(&text("0xabc")));
    let response = map_chain_type(&mut store, &deps, &from("admin"), text(REMOTE), 2).unwrap();
    assert_eq!(response.events[0].kind, EventKind::MappedChainType);
    assert_eq!(store.chain_types.get(&text(REMOTE)), Some(&2));
    let response =
        update_crosschain_metadata(&mut store, &deps, &from("admin"), Some(1), None, Some(3))
            .unwrap();
    let keys: Vec<AttrKey> = response.events[0].attributes.iter().map(|a| a.key).collect();
    assert_eq!(keys, vec![AttrKey::DstGasLimit, AttrKey::RelayerFee]);
    assert_eq!(store.dst_gas_limit, 1);
    assert_eq!(store.ack_gas_limit, 200_000);
    assert_eq!(store.relayer_fee, 3);
    let response = withdraw_funds(&store, &deps, &from("admin"), text("bob"), 12).unwrap();
    assert_eq!(
        response.messages,
        vec![OutMsg::BankSend { to_address: text("bob"), amount: 12 }]
    );
    assert_eq!(
        withdraw_funds(&store, &deps, &from("bob"), text("bob"), 12),
        Err(LedgerError::InvalidOwner)
    );
    assert_eq!(
        update_crosschain_metadata(&mut store, &deps, &from("bob"), Some(1), None, None),
        Err(LedgerError::InvalidOwner)
    );
}

#[test]
fn deposit_needs_one_positive_native_coin() {
    let store = fresh_ledger();
    let deps = deps_with_balance(0);
    let good = MessageInfo {
        sender: text("admin"),
        funds: vec![Coin { denom: text("route"), amount: 3 }],
    };
    let response = deposit_route(&store, &deps, &good).unwrap();
    assert_eq!(response.events[0].kind, EventKind::FundDeposited);
    assert_eq!(response.events[0].attributes[0].value, AttrValue::Text(text("admin")));
    assert_eq!(response.events[0].attributes[1].value, AttrValue::Text(text("route")));
    assert_eq!(response.events[0].attributes[2].value, AttrValue::Number(3));
    let zero = MessageInfo {
        sender: text("admin"),
        funds: vec![Coin { denom: text("route"), amount: 0 }],
    };
    assert_eq!(deposit_route(&store, &deps, &zero), Err(LedgerError::InvalidFund));
    let other = MessageInfo {
        sender: text("admin"),
        funds: vec![Coin { denom: text("atom"), amount: 3 }],
    };
    assert_eq!(deposit_route(&store, &deps, &other), Err(LedgerError::InvalidFund));
    assert_eq!(deposit_route(&store, &deps, &from("admin")), Err(LedgerError::InvalidFund));
    let stranger = MessageInfo {
        sender: text("bob"),
        funds: vec![Coin { denom: text("route"), amount: 3 }],
    };
    assert_eq!(deposit_route(&store, &deps, &stranger), Err(LedgerError::InvalidOwner));
}

#[test]
fn requests_are_routed_to_their_operations() {
    let mut store = fresh_ledger();
    let deps = deps_with_balance(100);
    let admin = from("admin");
    handle_execute(
        &mut store,
        &deps,
        &env_at(10),
        &admin,
        ExecuteMsg::EnrollRemoteContract { chain_id: text(REMOTE), remote_contract: text("0xC") },
    )
    .unwrap();
    handle_execute(
        &mut store,
        &deps,
        &env_at(10),
        &admin,
        ExecuteMsg::MapChainType { chain_id: text(REMOTE), chain_type: 2 },
    )
    .unwrap();
    handle_execute(
        &mut store,
        &deps,
        &env_at(10),
        &admin,
        ExecuteMsg::CreateStream {
            whitelisted_addresses: None,
            start_time: 0,
            pay_per_month: 2_592_000,
            recipient: text("alice"),
            remarks: None,
        },
    )
    .unwrap();
    handle_execute(
        &mut store,
        &deps,
        &env_at(10),
        &from("alice"),
        ExecuteMsg::UpdateWhiteListAddress {
            stream_id: 0,
            address: text("bob"),
            chain_id: text(HOME),
            to: true,
        },
    )
    .unwrap();
    let response = handle_execute(
        &mut store,
        &deps,
        &env_at(15),
        &from("bob"),
        ExecuteMsg::WithdrawSalary {
            stream_id: 0,
            recipient: text("bob"),
            dst_chain_id: None,
            max_amount: None,
        },
    )
    .unwrap();
    assert_eq!(
        response.messages,
        vec![OutMsg::BankSend { to_address: text("bob"), amount: 5 }]
    );
    handle_execute(
        &mut store,
        &deps,
        &env_at(15),
        &admin,
        ExecuteMsg::UpdateCrossChainMetadata {
            dst_gas_limit: None,
            ack_gas_limit: Some(9),
            relayer_fee: None,
        },
    )
    .unwrap();
    assert_eq!(store.ack_gas_limit, 9);
    assert_eq!(
        handle_execute(&mut store, &deps, &env_at(15), &admin, ExecuteMsg::DepositRoute {}),
        Err(LedgerError::InvalidFund)
    );
    handle_execute(
        &mut store,
        &deps,
        &env_at(15),
        &admin,
        ExecuteMsg::WithdrawFunds { recipient: text("bob"), amount: 1 },
    )
    .unwrap();
    handle_execute(
        &mut store,
        &deps,
        &env_at(20),
        &admin,
        ExecuteMsg::CancelStream { stream_id: 0, remarks: None },
    )
    .unwrap();
    assert!(store.streams.is_empty());
}

#[test]
fn migrate_moves_only_older_versions_of_the_same_contract() {
    let mut store = Ledger::new();
    assert_eq!(migrate(&mut store, MigrateMsg {}), Err(LedgerError::VersionNotSet));
    let mut store = fresh_ledger();
    assert_eq!(migrate(&mut store, MigrateMsg {}), Err(LedgerError::NewerVersion));
    store.contract_version.as_mut().unwrap().version = text("0.9.9");
    let response = migrate(&mut store, MigrateMsg {}).unwrap();
    assert!(response.events.is_empty());
    assert_eq!(store.contract_version.as_ref().unwrap().version, "1.0.0");
    store.contract_version.as_mut().unwrap().version = text("1.0.1");
    assert_eq!(migrate(&mut store, MigrateMsg {}), Err(LedgerError::NewerVersion));
    store.contract_version.as_mut().unwrap().version = text("1.0");
    assert!(migrate(&mut store, MigrateMsg {}).is_ok());
    store.contract_version.as_mut().unwrap().contract = text("other");
    assert_eq!(migrate(&mut store, MigrateMsg {}), Err(LedgerError::WrongContract));
}

#[test]
fn settled_time_never_moves_backwards_on_a_run() {
    let mut store = ledger_with_stream(1_000, 2_592_000);
    let mut last = 1_000;
    let mut check = |store: &Ledger| {
        let now = get_routerpay_metadata(store, 0).unwrap().last_withdrawn_at;
        assert!(now >= last);
        last = now;
    };
    let deps = deps_with_balance(1_000_000);
    withdraw_on_router_chain(
        &mut store,
        &deps,
        &env_at(1_005),
        0,
        Some(3),
        text("bob"),
        text("alice"),
        text(HOME),
    )
    .unwrap();
    check(&store);
    dispatch(&mut store, 1_020);
    check(&store);
    handle_reply(&mut store, dispatched(1)).unwrap();
    check(&store);
    handle_sudo_ack(&mut store, false, 1, Coin { denom: text("route"), amount: 0 }).unwrap();
    check(&store);
    dispatch(&mut store, 1_030);
    handle_reply(&mut store, dispatched(2)).unwrap();
    handle_sudo_ack(&mut store, true, 2, Coin { denom: text("route"), amount: 0 }).unwrap();
    check(&store);
    assert_eq!(get_routerpay_metadata(&store, 0).unwrap().last_withdrawn_at, 1_030);
}

fn attempts_in_flight(store: &Ledger, stream_id: u64) -> usize {
    let awaiting = store.pending_outbound.values().filter(|r| r.stream_id == stream_id).count();
    let current = store.temp_outbound_info.iter().filter(|r| r.stream_id == stream_id).count();
    awaiting + current
}

fn attempts_match_the_flag(store: &Ledger, stream_id: u64) {
    let sending = get_routerpay_metadata(store, stream_id).unwrap().is_sending;
    assert_eq!(attempts_in_flight(store, stream_id), if sending { 1 } else { 0 });
}

#[test]
fn no_stream_has_two_withdrawals_in_flight() {
    let mut store = ledger_with_stream(1_000, 2_592_000);
    let deps = deps_with_balance(1_000_000);
    create_stream(
        &mut store,
        &deps,
        &env_at(1_000),
        &from("admin"),
        None,
        1_000,
        2_592_000,
        text("bob"),
        None,
    )
    .unwrap();
    let remote = |store: &mut Ledger, id: u64, who: &str, now: u64| {
        withdraw_salary(
            store,
            &deps,
            &env_at(now),
            id,
            None,
            text("0xrecipient"),
            Some(text(REMOTE)),
            text(who),
            text(HOME),
        )
    };
    let check = |store: &Ledger| {
        attempts_match_the_flag(store, 0);
        attempts_match_the_flag(store, 1);
    };
    check(&store);
    remote(&mut store, 0, "alice", 1_010).unwrap();
    check(&store);
    assert_eq!(remote(&mut store, 0, "alice", 1_011), Err(LedgerError::AlreadyPending));
    check(&store);
    handle_reply(&mut store, dispatched(5)).unwrap();
    check(&store);
    remote(&mut store, 1, "bob", 1_012).unwrap();
    check(&store);
    assert_eq!(remote(&mut store, 0, "alice", 1_013), Err(LedgerError::AlreadyPending));
    handle_reply(&mut store, dispatched(6)).unwrap();
    check(&store);
    handle_sudo_ack(&mut store, true, 5, Coin { denom: text("route"), amount: 0 }).unwrap();
    check(&store);
    remote(&mut store, 0, "alice", 1_020).unwrap();
    check(&store);
    handle_sudo_ack(&mut store, false, 6, Coin { denom: text("route"), amount: 0 }).unwrap();
    check(&store);
    assert_eq!(attempts_in_flight(&store, 0), 1);
    assert_eq!(attempts_in_flight(&store, 1), 0);
}

#[test]
fn ids_are_not_used_again_after_a_cancellation() {
    let mut store = ledger_with_stream(1_000, 2_592_000);
    let deps = deps_with_balance(1_000);
    cancel_stream(&mut store, &deps, &env_at(1_000), &from("admin"), 0, None).unwrap();
    create_stream(
        &mut store,
        &deps,
        &env_at(1_000),
        &from("admin"),
        None,
        0,
        2_592_000,
        text("alice"),
        None,
    )
    .unwrap();
    assert_eq!(get_routerpay_metadata(&store, 0), Err(LedgerError::StreamNotFound));
    assert!(get_routerpay_metadata(&store, 1).is_ok());
    assert_eq!(get_user_stream_ids(&store, &deps, text("alice")), Ok(vec![1]));
    assert_eq!(store.stream_indexer, 2);
}
