use routerpay::contract::{is_bytes_less, is_text_less};
use routerpay::errors::{decimal, ErrorKind, LedgerError};
use routerpay::execution::{ids_with, ids_without};
use routerpay::host::{
    check_valid_route_fund, get_oracle_gas_price, get_route_balance, Api, Coin, Deps,
    GasPriceResponse, MessageInfo, Querier,
};
use routerpay::host::Env;
use routerpay::inquiry::{inquiry_for_execute, inquiry_for_query, inquiry_for_sudo, Inquiry};
use routerpay::ledger::Ledger;
use routerpay::modifiers::is_owner;
use routerpay::msg::{ExecuteMsg, QueryMsg, SudoMsg};
use routerpay::response::{AttrKey, AttrValue, Event, EventKind, OutMsg, Response};
use routerpay::stream::OutboundInfo;
use routerpay::strmap::StrMap;
use routerpay::whitelist::{get_id, Whitelist, WhitelistEntry};

fn own(text: &str) -> String {
    text.to_string()
}

fn world() -> Deps {
    let mut route_balances = StrMap::new();
    route_balances.insert(own("vault"), 42u128);
    let mut gas_prices = StrMap::new();
    gas_prices.insert(own("far"), 9u64);
    Deps {
        api: Api { valid_addresses: vec![own("admin"), own("alice")] },
        querier: Querier { route_balances, gas_prices },
    }
}

#[test]
fn composite_key_is_the_pair_of_chain_and_address() {
    assert_eq!(
        get_id(own("80001"), own("0xabc")),
        WhitelistEntry { chain_id: own("80001"), address: own("0xabc") }
    );
    assert_eq!(
        get_id(own(""), own("")),
        WhitelistEntry { chain_id: own(""), address: own("") }
    );
    assert_ne!(get_id(own("a_&_b"), own("c")), get_id(own("a"), own("b_&_c")));
    assert_ne!(get_id(own("ab"), own("c")), get_id(own("a"), own("bc")));
}

#[test]
fn text_map_holds_one_value_per_key() {
    let mut map: StrMap<u64> = StrMap::new();
    assert_eq!(map.get(&own("a")), None);
    assert!(!map.contains_key(&own("a")));
    map.insert(own("a"), 1);
    map.insert(own("b"), 2);
    map.insert(own("a"), 3);
    assert_eq!(map.get(&own("a")), Some(&3));
    assert_eq!(map.get(&own("b")), Some(&2));
    assert_eq!(map.entries.len(), 2);
    map.remove(&own("a"));
    assert_eq!(map.get(&own("a")), None);
    assert!(map.contains_key(&own("b")));
    map.remove(&own("zzz"));
    assert_eq!(map.entries.len(), 1);
}

#[test]
fn text_map_reads_the_last_of_two_entries_for_a_key() {
    let mut map: StrMap<u64> = StrMap::new();
    map.insert(own("a"), 1);
    map.entries.push(routerpay::strmap::StrEntry { key: own("a"), value: 7 });
    assert_eq!(map.get(&own("a")), Some(&7));
    map.remove(&own("a"));
    assert!(map.entries.is_empty());
}

#[test]
fn whitelist_lists_each_party_once() {
    let mut list = Whitelist::new();
    assert!(!list.contains(&own("c"), &own("a")));
    list.insert(own("c"), own("a"));
    list.insert(own("c"), own("b"));
    list.insert(own("c"), own("a"));
    list.insert(own("d"), own("a"));
    assert_eq!(
        list.pairs(),
        vec![(own("c"), own("a")), (own("c"), own("b")), (own("d"), own("a"))]
    );
    assert!(list.contains(&own("d"), &own("a")));
    assert!(!list.contains(&own("d"), &own("b")));
    let copy = list.duplicate();
    assert_eq!(copy, list);
    list.remove(&own("c"), &own("a"));
    assert_eq!(list.pairs(), vec![(own("c"), own("b")), (own("d"), own("a"))]);
    list.remove(&own("x"), &own("y"));
    assert_eq!(list.entries.len(), 2);
    assert_eq!(copy.entries.len(), 3);
}

#[test]
fn id_lists_add_once_and_remove_all() {
    assert_eq!(ids_with(None, 4), vec![4]);
    assert_eq!(ids_with(Some(&vec![1, 2]), 4), vec![1, 2, 4]);
    assert_eq!(ids_with(Some(&vec![1, 4, 2]), 4), vec![1, 4, 2]);
    assert_eq!(ids_without(&vec![1, 4, 2, 4], 4), vec![1, 2]);
    assert_eq!(ids_without(&vec![1, 2], 4), vec![1, 2]);
    assert_eq!(ids_without(&vec![], 4), Vec::<u64>::new());
}

#[test]
fn funds_are_valid_only_as_one_positive_native_coin() {
    let info = |funds: Vec<Coin>| MessageInfo { sender: own("bob"), funds };
    let route = |amount: u128| Coin { denom: own("route"), amount };
    assert_eq!(check_valid_route_fund(&info(vec![route(5)])), Ok(5));
    assert_eq!(check_valid_route_fund(&info(vec![])), Err(LedgerError::InvalidFund));
    assert_eq!(check_valid_route_fund(&info(vec![route(0)])), Err(LedgerError::InvalidFund));
    assert_eq!(
        check_valid_route_fund(&info(vec![route(5), route(6)])),
        Err(LedgerError::InvalidFund)
    );
    assert_eq!(
        check_valid_route_fund(&info(vec![Coin { denom: own("Route"), amount: 5 }])),
        Err(LedgerError::InvalidFund)
    );
}

#[test]
fn host_answers_are_read_by_key() {
    let deps = world();
    assert_eq!(get_route_balance(&deps, &own("vault")), Ok(42));
    assert_eq!(get_route_balance(&deps, &own("other")), Ok(0));
    assert_eq!(get_oracle_gas_price(&deps, &own("far")), Ok(GasPriceResponse { gas_price: 9 }));
    assert_eq!(get_oracle_gas_price(&deps, &own("near")), Err(LedgerError::GasPriceUnavailable));
    assert!(deps.api.addr_validate(&own("alice")));
    assert!(!deps.api.addr_validate(&own("Alice")));
}

#[test]
fn administrator_is_the_stored_valid_owner() {
    let deps = world();
    let info = |sender: &str| MessageInfo { sender: own(sender), funds: vec![] };
    let mut store = Ledger::new();
    assert_eq!(is_owner(&store, &deps, &info("admin")), Err(LedgerError::OwnerNotSet));
    store.owner = Some(own("admin"));
    assert_eq!(is_owner(&store, &deps, &info("admin")), Ok(()));
    assert_eq!(is_owner(&store, &deps, &info("alice")), Err(LedgerError::InvalidOwner));
    store.owner = Some(own("mallory"));
    assert_eq!(is_owner(&store, &deps, &info("mallory")), Err(LedgerError::InvalidAddress));
}

#[test]
fn stored_records_are_read_back() {
    let mut store = Ledger::new();
    let record = OutboundInfo { stream_id: 1, total_amount_to_be_paid: 2, paid_to_sec: 3 };
    assert_eq!(store.load_pending(8), None);
    store.save_pending(8, record);
    assert_eq!(store.load_pending(8), Some(record));
    store.remove_pending(8);
    assert_eq!(store.load_pending(8), None);
    store.save_chain_type(own("far"), 2);
    assert_eq!(store.load_chain_type(&own("far")), Some(2));
    assert_eq!(store.load_chain_type(&own("near")), None);
    store.save_remote_contract(own("far"), own("0xgate"));
    assert_eq!(store.load_remote_contract(&own("far")), Some(&own("0xgate")));
    store.save_user_streams(own("alice"), vec![3, 1]);
    assert_eq!(store.load_user_streams(&own("alice")), Some(&vec![3, 1]));
    assert!(store.load_stream(0).is_none());
    assert!(store.take_stream(0).is_none());
}

#[test]
fn texts_are_ordered_by_their_bytes() {
    assert!(is_bytes_less(b"", b"a"));
    assert!(!is_bytes_less(b"", b""));
    assert!(!is_bytes_less(b"a", b""));
    assert!(is_bytes_less(b"ab", b"b"));
    assert!(is_bytes_less(b"ab", b"abc"));
    assert!(!is_bytes_less(b"abc", b"ab"));
    assert!(!is_bytes_less(b"abc", b"abc"));
    assert!(is_text_less(&own("0.9.9"), &own("1.0.0")));
    assert!(is_text_less(&own("1.0"), &own("1.0.0")));
    assert!(!is_text_less(&own("1.0.0"), &own("1.0.0")));
    assert!(is_text_less(&own("10.0.0"), &own("9.0.0")));
    assert!(is_text_less(&own("z"), &own("\u{e9}")));
}

#[test]
fn responses_are_built_in_order() {
    let event = Event::new(EventKind::FundDeposited)
        .add_text(AttrKey::DepositedBy, own("bob"))
        .add_number(AttrKey::Amount, 5)
        .add_pairs(AttrKey::WhitelistedAddresses, Some(vec![(own("c"), own("a"))]));
    assert_eq!(event.kind, EventKind::FundDeposited);
    assert_eq!(event.attributes.len(), 3);
    assert_eq!(event.attributes[0].value, AttrValue::Text(own("bob")));
    assert_eq!(event.attributes[1].value, AttrValue::Number(5));
    assert_eq!(event.attributes[2].value, AttrValue::Pairs(Some(vec![(own("c"), own("a"))])));
    let response = Response::new()
        .add_attribute(AttrKey::Action, own("x"))
        .add_message(OutMsg::BankSend { to_address: own("bob"), amount: 1 })
        .add_event(event.clone())
        .add_message(OutMsg::BankSend { to_address: own("bob"), amount: 2 });
    assert_eq!(response.attributes.len(), 1);
    assert_eq!(response.messages.len(), 2);
    assert_eq!(response.messages[1], OutMsg::BankSend { to_address: own("bob"), amount: 2 });
    assert_eq!(response.events, vec![event]);
}

#[test]
fn events_and_attributes_have_their_names() {
    assert_eq!(EventKind::StreamCreated.name(), "StreamCreated");
    assert_eq!(EventKind::EnrolledRemoteContract.name(), "EnrolledRemoteContract");
    assert_eq!(EventKind::MappedChainType.name(), "MappedChainType");
    assert_eq!(EventKind::FundDeposited.name(), "FundDeposited");
    assert_eq!(EventKind::StreamCancelled.name(), "StreamCancelled");
    assert_eq!(EventKind::WithdrawOnRouterChain.name(), "WithdrawOnRouterChain");
    assert_eq!(EventKind::WithdrawOnOtherChain.name(), "WithdrawOnOtherChain");
    assert_eq!(EventKind::WhiteListedAddress.name(), "WhiteListedAddress");
    assert_eq!(EventKind::BlackListedAddress.name(), "BlackListedAddress");
    assert_eq!(EventKind::CrossChainMetaUpdated.name(), "CrossChainMetaUpdated");
    assert_eq!(EventKind::WithdrawFromContract.name(), "WithdrawFromContract");
    assert_eq!(EventKind::OutboundRolledBack.name(), "OutboundRolledBack");
    assert_eq!(EventKind::PayTransferFailed.name(), "PayTransferFailed");
    assert_eq!(EventKind::PayTransferReceived.name(), "PayTransferReceived");
    assert_eq!(AttrKey::StreamId.name(), "stream_id");
    assert_eq!(AttrKey::AmountPaidToPayee.name(), "amount_paid_to_payee");
    assert_eq!(AttrKey::RequestIdentifier.name(), "request_identifier");
    assert_eq!(AttrKey::WhitelistedAddresses.name(), "whitelisted_addresses");
    assert_eq!(AttrKey::Action.name(), "action");
}

#[test]
fn failures_have_a_kind_and_a_message() {
    let all = [
        (LedgerError::OwnerNotSet, ErrorKind::NotFound, "Owner_Not_Set"),
        (LedgerError::InvalidOwner, ErrorKind::Unauthorized, "Auth: Invalid Owner"),
        (LedgerError::NotAuthorized, ErrorKind::Unauthorized, "Not_Authorized"),
        (LedgerError::InvalidCaller, ErrorKind::Unauthorized, "Auth: Invalid Caller"),
        (LedgerError::InvalidAddress, ErrorKind::InvalidInput, "Invalid_Address"),
        (LedgerError::InvalidFund, ErrorKind::InvalidInput, "Invalid_Fund"),
        (
            LedgerError::RateTooLow,
            ErrorKind::InvalidInput,
            "Pay_Per_Month Should Be Greater than 2592000",
        ),
        (LedgerError::StartTimeInPast, ErrorKind::InvalidInput, "Start_Time_Should'be_In_Past"),
        (LedgerError::InvalidChainId, ErrorKind::InvalidInput, "Invalid_ChainId_Passed!!"),
        (LedgerError::StreamNotFound, ErrorKind::NotFound, "Stream_Not_Found"),
        (LedgerError::StreamNotStarted, ErrorKind::InvalidInput, "Stream_Not_Started"),
        (LedgerError::RemoteContractNotFound, ErrorKind::NotFound, "Remote_Contract_Not_Found"),
        (LedgerError::VersionNotSet, ErrorKind::NotFound, "Version_Not_Set"),
        (
            LedgerError::InsufficientBalance,
            ErrorKind::InsufficientBalance,
            "Insufficient_Balance",
        ),
        (
            LedgerError::AlreadyPending,
            ErrorKind::AlreadyPending,
            "Last_Request_Still_Pending_Wait!!",
        ),
        (
            LedgerError::DstChainNotSupported,
            ErrorKind::DstChainNotSupported,
            "Dst_Chain_Not_Supported",
        ),
        (LedgerError::AlreadyWhitelisted, ErrorKind::InvalidInput, "Already_WhiteListed"),
        (LedgerError::NotWhitelisted, ErrorKind::InvalidInput, "Not_WhiteListed"),
        (LedgerError::WrongContract, ErrorKind::InvalidInput, "Can only upgrade from same type"),
        (
            LedgerError::NewerVersion,
            ErrorKind::InvalidInput,
            "Cannot upgrade from a newer version",
        ),
        (LedgerError::UnknownReplyId(7), ErrorKind::InvalidInput, "Unknown reply id: 7"),
        (
            LedgerError::UnknownReplyId(u64::MAX),
            ErrorKind::InvalidInput,
            "Unknown reply id: 18446744073709551615",
        ),
        (LedgerError::DecodingFailure, ErrorKind::DecodingFailure, "Decoding_Failure"),
        (LedgerError::PayloadTooLarge, ErrorKind::InvalidInput, "Payload_Too_Large"),
        (LedgerError::Overflow, ErrorKind::Fatal, "Overflow"),
        (LedgerError::GasPriceUnavailable, ErrorKind::Fatal, "Gas_Price_Unavailable"),
        (LedgerError::ChainTypeUnknown, ErrorKind::Fatal, "Chain_Type_Unknown"),
        (LedgerError::PendingRecordMissing, ErrorKind::Fatal, "Pending_Record_Missing"),
        (LedgerError::PendingStreamMissing, ErrorKind::Fatal, "Pending_Stream_Missing"),
        (LedgerError::UserIndexMissing, ErrorKind::Fatal, "User_Index_Missing"),
        (LedgerError::IndexedStreamMissing, ErrorKind::Fatal, "Indexed_Stream_Missing"),
    ];
    for (error, kind, message) in all {
        assert_eq!(error.kind(), kind);
        assert_eq!(error.message(), message);
        assert_eq!(error.is_fatal(), kind == ErrorKind::Fatal);
    }
}

#[test]
fn host_is_asked_what_a_call_may_depend_on() {
    let env = Env { block_time: 1, chain_id: own("home"), contract_address: own("vault") };
    let mut store = Ledger::new();
    let withdraw = ExecuteMsg::WithdrawSalary {
        stream_id: 0,
        recipient: own("bob"),
        dst_chain_id: Some(own("far")),
        max_amount: None,
    };
    assert_eq!(
        inquiry_for_execute(&store, &env, &withdraw),
        Inquiry { addresses: vec![own("bob")], chains: vec![own("home"), own("far")] }
    );
    store.owner = Some(own("admin"));
    let create = ExecuteMsg::CreateStream {
        whitelisted_addresses: None,
        start_time: 0,
        pay_per_month: 1,
        recipient: own("alice"),
        remarks: None,
    };
    assert_eq!(
        inquiry_for_execute(&store, &env, &create),
        Inquiry { addresses: vec![own("admin"), own("alice")], chains: vec![own("home")] }
    );
    assert_eq!(
        inquiry_for_execute(&store, &env, &ExecuteMsg::DepositRoute {}),
        Inquiry { addresses: vec![own("admin")], chains: vec![own("home")] }
    );
    assert_eq!(
        inquiry_for_query(&QueryMsg::GetUserStreamIds { address: own("alice") }),
        Inquiry { addresses: vec![own("alice")], chains: vec![] }
    );
    assert_eq!(
        inquiry_for_query(&QueryMsg::GetOwner {}),
        Inquiry { addresses: vec![], chains: vec![] }
    );
    let broken = SudoMsg::HandleIReceive {
        request_sender: own("0xgate"),
        src_chain_id: own("far"),
        request_identifier: 1,
        payload: vec![1, 2, 3],
    };
    assert_eq!(
        inquiry_for_sudo(&env, &broken),
        Inquiry { addresses: vec![], chains: vec![own("home")] }
    );
}

#[test]
fn numbers_are_written_in_decimal() {
    assert_eq!(decimal(0), "0");
    assert_eq!(decimal(9), "9");
    assert_eq!(decimal(10), "10");
    assert_eq!(decimal(1_234_567_890), "1234567890");
    assert_eq!(decimal(u64::MAX), u64::MAX.to_string());
}
