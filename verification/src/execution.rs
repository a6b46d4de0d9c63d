//! The operations that change the ledger: registries and settings, the
//! lifecycle of a stream, its whitelist, and withdrawals.

use crate::abi::{lowercase, lowercase_of};
use crate::accrual::{accrual, accrual_defined, accrued, pay_per_sec, rate_per_second};
use crate::errors::LedgerError;
use crate::host::{
    check_valid_route_fund, get_route_balance, route_balance_of, route_fund, Deps, Env,
    MessageInfo,
};
use crate::ledger::{agrees, optional_text_view, Ledger, LedgerView, Outcome};
use crate::modifiers::{is_owner, owner_check};
use crate::response::{
    optional_pairs_view, AttrKey, Event, EventKind, EventView, OutMsg, OutMsgView, Response,
    ResponseView,
};
use crate::seqs::{lemma_without_empty, lemma_without_push, with_value, without};
use crate::stream::{RouterPayStreamMetadata, StreamView};
use crate::msg::ExecuteMsg;
use crate::whitelist::{pairs_view, Whitelist};
use crate::withdrawal::{withdraw_salary, withdraw_salary_outcome};
use vstd::prelude::*;

verus! {

/// What enrolling a remote contract does: for the administrator, the
/// lower-case form of the address becomes the remote contract of the chain.
pub open spec fn enroll_remote_contract_outcome(
    pre: LedgerView,
    deps: Deps,
    info: MessageInfo,
    chain_id: Seq<char>,
    remote_address: Seq<char>,
) -> Outcome {
    match owner_check(pre, deps, info) {
        Some(e) => Err(e),
        None => Ok(
            (
                LedgerView {
                    remote_contracts: pre.remote_contracts.insert(
                        chain_id,
                        lowercase_of(remote_address),
                    ),
                    ..pre
                },
                ResponseView::new().event(
                    EventView::new(EventKind::EnrolledRemoteContract).text(
                        AttrKey::ChainId,
                        chain_id,
                    ).text(AttrKey::ContractAddress, lowercase_of(remote_address)),
                ),
            ),
        ),
    }
}

/// Registers the counterpart contract that is deployed on a chain.
pub fn enroll_remote_contract(
    store: &mut Ledger,
    deps: &Deps,
    info: &MessageInfo,
    chain_id: String,
    remote_address: String,
) -> (res: Result<Response, LedgerError>)
    ensures
        agrees(
            enroll_remote_contract_outcome(old(store)@, *deps, *info, chain_id@, remote_address@),
            old(store)@,
            final(store)@,
            res,
        ),
{
    match is_owner(store, deps, info) {
        Err(e) => {
            return Err(e);
        },
        Ok(_) => {},
    }
    let lower = lowercase(&remote_address);
    store.save_remote_contract(chain_id.clone(), lower.clone());
    let event = Event::new(EventKind::EnrolledRemoteContract).add_text(
        AttrKey::ChainId,
        chain_id,
    ).add_text(AttrKey::ContractAddress, lower);
    Ok(Response::new().add_event(event))
}

/// What mapping a chain type does: for the administrator, the encoding
/// becomes the address encoding of the chain.
pub open spec fn map_chain_type_outcome(
    pre: LedgerView,
    deps: Deps,
    info: MessageInfo,
    chain_id: Seq<char>,
    chain_type: u64,
) -> Outcome {
    match owner_check(pre, deps, info) {
        Some(e) => Err(e),
        None => Ok(
            (
                LedgerView { chain_types: pre.chain_types.insert(chain_id, chain_type), ..pre },
                ResponseView::new().event(
                    EventView::new(EventKind::MappedChainType).text(
                        AttrKey::ChainId,
                        chain_id,
                    ).number(AttrKey::ChainType, chain_type as int),
                ),
            ),
        ),
    }
}

/// Registers the scheme by which the addresses of a chain are encoded.
pub fn map_chain_type(
    store: &mut Ledger,
    deps: &Deps,
    info: &MessageInfo,
    chain_id: String,
    chain_type: u64,
) -> (res: Result<Response, LedgerError>)
    ensures
        agrees(
            map_chain_type_outcome(old(store)@, *deps, *info, chain_id@, chain_type),
            old(store)@,
            final(store)@,
            res,
        ),
{
    match is_owner(store, deps, info) {
        Err(e) => {
            return Err(e);
        },
        Ok(_) => {},
    }
    store.save_chain_type(chain_id.clone(), chain_type);
    let event = Event::new(EventKind::MappedChainType).add_text(
        AttrKey::ChainId,
        chain_id,
    ).add_number(AttrKey::ChainType, chain_type as u128);
    Ok(Response::new().add_event(event))
}

/// What a deposit does: for the administrator, where the call carries
/// valid funds, it records who deposited how much; the state stays as it is.
pub open spec fn deposit_route_outcome(pre: LedgerView, deps: Deps, info: MessageInfo) -> Outcome {
    if owner_check(pre, deps, info) is Some {
        Err(owner_check(pre, deps, info)->Some_0)
    } else {
        match route_fund(info) {
            None => Err(LedgerError::InvalidFund),
            Some(amount) => Ok(
                (
                    pre,
                    ResponseView::new().event(
                        EventView::new(EventKind::FundDeposited).text(
                            AttrKey::DepositedBy,
                            info.sender@,
                        ).text(AttrKey::Denom, info.funds@[0].denom@).number(
                            AttrKey::Amount,
                            amount as int,
                        ),
                    ),
                ),
            ),
        }
    }
}

/// Accepts a deposit of the native coin.
pub fn deposit_route(store: &Ledger, deps: &Deps, info: &MessageInfo) -> (res: Result<
    Response,
    LedgerError,
>)
    ensures
        agrees(deposit_route_outcome(store@, *deps, *info), store@, store@, res),
{
    match is_owner(store, deps, info) {
        Err(e) => {
            return Err(e);
        },
        Ok(_) => {},
    }
    let amount: u128 = match check_valid_route_fund(info) {
        Err(e) => {
            return Err(e);
        },
        Ok(a) => a,
    };
    let event = Event::new(EventKind::FundDeposited).add_text(
        AttrKey::DepositedBy,
        info.sender.clone(),
    ).add_text(AttrKey::Denom, info.funds[0].denom.clone()).add_number(AttrKey::Amount, amount);
    Ok(Response::new().add_event(event))
}

/// What a withdrawal of funds does: for the administrator, it pays the
/// amount to the recipient; the state stays as it is.
pub open spec fn withdraw_funds_outcome(
    pre: LedgerView,
    deps: Deps,
    info: MessageInfo,
    recipient: Seq<char>,
    amount: u128,
) -> Outcome {
    match owner_check(pre, deps, info) {
        Some(e) => Err(e),
        None => Ok(
            (
                pre,
                ResponseView::new().message(
                    OutMsgView::BankSend { to_address: recipient, amount },
                ).event(
                    EventView::new(EventKind::WithdrawFromContract).text(
                        AttrKey::Recipient,
                        recipient,
                    ).number(AttrKey::Amount, amount as int),
                ),
            ),
        ),
    }
}

/// Pays an amount of the ledger's funds to a recipient.
pub fn withdraw_funds(
    store: &Ledger,
    deps: &Deps,
    info: &MessageInfo,
    recipient: String,
    amount: u128,
) -> (res: Result<Response, LedgerError>)
    ensures
        agrees(withdraw_funds_outcome(store@, *deps, *info, recipient@, amount), store@, store@, res),
{
    match is_owner(store, deps, info) {
        Err(e) => {
            return Err(e);
        },
        Ok(_) => {},
    }
    let msg = OutMsg::BankSend { to_address: recipient.clone(), amount };
    let event = Event::new(EventKind::WithdrawFromContract).add_text(
        AttrKey::Recipient,
        recipient,
    ).add_number(AttrKey::Amount, amount);
    Ok(Response::new().add_message(msg).add_event(event))
}

/// An event with a number attached where one is given.
pub open spec fn with_optional_number(event: EventView, key: AttrKey, value: Option<int>) -> EventView {
    match value {
        Some(n) => event.number(key, n),
        None => event,
    }
}

/// The view of an optional 64-bit number.
pub open spec fn optional_u64(value: Option<u64>) -> Option<int> {
    match value {
        Some(n) => Some(n as int),
        None => None,
    }
}

/// The view of an optional 128-bit number.
pub open spec fn optional_u128(value: Option<u128>) -> Option<int> {
    match value {
        Some(n) => Some(n as int),
        None => None,
    }
}

/// What an update of the cross-chain settings does: for the administrator,
/// each setting that is given replaces the stored one, and is recorded.
pub open spec fn update_crosschain_metadata_outcome(
    pre: LedgerView,
    deps: Deps,
    info: MessageInfo,
    dst_gas_limit: Option<u64>,
    ack_gas_limit: Option<u64>,
    relayer_fee: Option<u128>,
) -> Outcome {
    match owner_check(pre, deps, info) {
        Some(e) => Err(e),
        None => Ok(
            (
                LedgerView {
                    ack_gas_limit: match ack_gas_limit {
                        Some(limit) => limit,
                        None => pre.ack_gas_limit,
                    },
                    dst_gas_limit: match dst_gas_limit {
                        Some(limit) => limit,
                        None => pre.dst_gas_limit,
                    },
                    relayer_fee: match relayer_fee {
                        Some(fee) => fee,
                        None => pre.relayer_fee,
                    },
                    ..pre
                },
                ResponseView::new().event(
                    with_optional_number(
                        with_optional_number(
                            with_optional_number(
                                EventView::new(EventKind::CrossChainMetaUpdated),
                                AttrKey::AckGasLimit,
                                optional_u64(ack_gas_limit),
                            ),
                            AttrKey::DstGasLimit,
                            optional_u64(dst_gas_limit),
                        ),
                        AttrKey::RelayerFee,
                        optional_u128(relayer_fee),
                    ),
                ),
            ),
        ),
    }
}

/// Changes the settings that cross-chain requests carry.
pub fn update_crosschain_metadata(
    store: &mut Ledger,
    deps: &Deps,
    info: &MessageInfo,
    dst_gas_limit: Option<u64>,
    ack_gas_limit: Option<u64>,
    relayer_fee: Option<u128>,
) -> (res: Result<Response, LedgerError>)
    ensures
        agrees(
            update_crosschain_metadata_outcome(
                old(store)@,
                *deps,
                *info,
                dst_gas_limit,
                ack_gas_limit,
                relayer_fee,
            ),
            old(store)@,
            final(store)@,
            res,
        ),
{
    match is_owner(store, deps, info) {
        Err(e) => {
            return Err(e);
        },
        Ok(_) => {},
    }
    let mut event = Event::new(EventKind::CrossChainMetaUpdated);
    if let Some(limit) = ack_gas_limit {
        store.ack_gas_limit = limit;
        event = event.add_number(AttrKey::AckGasLimit, limit as u128);
    }
    if let Some(limit) = dst_gas_limit {
        store.dst_gas_limit = limit;
        event = event.add_number(AttrKey::DstGasLimit, limit as u128);
    }
    if let Some(fee) = relayer_fee {
        store.relayer_fee = fee;
        event = event.add_number(AttrKey::RelayerFee, fee);
    }
    Ok(Response::new().add_event(event))
}

/// The view of an optional text, the empty text where none is given.
pub open spec fn text_or_empty(text: Option<String>) -> Seq<char> {
    match text {
        Some(t) => t@,
        None => Seq::empty(),
    }
}

/// The pairs of an optional list, none where no list is given.
pub open spec fn pairs_or_none(pairs: Option<Vec<(String, String)>>) -> Seq<
    (Seq<char>, Seq<char>),
> {
    match pairs {
        Some(list) => pairs_view(list@),
        None => Seq::empty(),
    }
}

/// The ids listed for `user`: none where the user has no entry.
pub open spec fn ids_or_empty(m: Map<Seq<char>, Seq<u64>>, user: Seq<char>) -> Seq<u64> {
    if m.contains_key(user) {
        m[user]
    } else {
        Seq::empty()
    }
}

/// The time from which a stream accrues: the one asked for, or the block's
/// time where zero is asked for.
pub open spec fn effective_start(start_time: u64, now: u64) -> u64 {
    if start_time == 0 {
        now
    } else {
        start_time
    }
}

/// Whether every pair names a chain with a registered remote contract.
pub open spec fn chains_registered(pre: LedgerView, pairs: Seq<(Seq<char>, Seq<char>)>) -> bool {
    forall|i: int| 0 <= i < pairs.len() ==> pre.remote_contracts.contains_key((#[trigger] pairs[i]).0)
}

/// The whitelist that starts as `init` and takes in `pairs` one by one, each
/// unless it is there already.
pub open spec fn whitelist_of(
    init: Seq<(Seq<char>, Seq<char>)>,
    pairs: Seq<(Seq<char>, Seq<char>)>,
) -> Seq<(Seq<char>, Seq<char>)>
    decreases pairs.len(),
{
    if pairs.len() == 0 {
        init
    } else {
        with_value(whitelist_of(init, pairs.drop_last()), pairs.last())
    }
}

/// Why a stream cannot be created, if it cannot, by the first check that
/// fails: the caller is not the administrator; the recipient is no valid
/// account; the rate per second is zero; the start lies in the past; the id
/// counter is exhausted; a whitelist entry names an unregistered chain.
pub open spec fn create_stream_error(
    pre: LedgerView,
    deps: Deps,
    env: Env,
    info: MessageInfo,
    pairs: Seq<(Seq<char>, Seq<char>)>,
    start_time: u64,
    pay_per_month: u128,
    recipient: Seq<char>,
) -> Option<LedgerError> {
    if owner_check(pre, deps, info) is Some {
        owner_check(pre, deps, info)
    } else if !deps.api.accepts(recipient) {
        Some(LedgerError::InvalidAddress)
    } else if rate_per_second(pay_per_month) == 0 {
        Some(LedgerError::RateTooLow)
    } else if effective_start(start_time, env.block_time) < env.block_time {
        Some(LedgerError::StartTimeInPast)
    } else if pre.stream_indexer == u64::MAX {
        Some(LedgerError::Overflow)
    } else if !chains_registered(pre, pairs) {
        Some(LedgerError::InvalidChainId)
    } else {
        None
    }
}

/// The stream that a creation stores.
pub open spec fn created_stream(
    env: Env,
    pairs: Seq<(Seq<char>, Seq<char>)>,
    start_time: u64,
    pay_per_month: u128,
    recipient: Seq<char>,
    reason: Seq<char>,
) -> StreamView {
    StreamView {
        recipient_owner: recipient,
        created_at: env.block_time,
        start_time: effective_start(start_time, env.block_time),
        pay_per_sec: rate_per_second(pay_per_month) as u128,
        reason,
        last_withdrawn_at: effective_start(start_time, env.block_time),
        is_sending: false,
        whitelisted_addresses: whitelist_of(seq![(env.chain_id@, recipient)], pairs),
    }
}

/// The event that records a creation.
pub open spec fn stream_created_event(
    stream_id: u64,
    stream: StreamView,
    whitelisted_addresses: Option<Vec<(String, String)>>,
    created_by: Seq<char>,
    pay_per_month: u128,
) -> EventView {
    let event = EventView::new(EventKind::StreamCreated).number(
        AttrKey::StreamId,
        stream_id as int,
    ).pairs(AttrKey::WhitelistedAddresses, optional_pairs_view(whitelisted_addresses)).text(
        AttrKey::Recipient,
        stream.recipient_owner,
    ).number(AttrKey::CreatedAt, stream.created_at as int).text(
        AttrKey::CreatedBy,
        created_by,
    ).number(AttrKey::StartTime, stream.start_time as int).number(
        AttrKey::PayPerSec,
        stream.pay_per_sec as int,
    ).number(AttrKey::PayPerMonth, pay_per_month as int);
    if stream.reason.len() != 0 {
        event.text(AttrKey::Reason, stream.reason)
    } else {
        event
    }
}

/// What the creation of a stream does: where no check fails, the stream is
/// stored under the next id, the counter moves on, and the id joins the
/// recipient's streams.
pub open spec fn create_stream_outcome(
    pre: LedgerView,
    deps: Deps,
    env: Env,
    info: MessageInfo,
    whitelisted_addresses: Option<Vec<(String, String)>>,
    start_time: u64,
    pay_per_month: u128,
    recipient: Seq<char>,
    remarks: Option<String>,
) -> Outcome {
    let pairs = pairs_or_none(whitelisted_addresses);
    match create_stream_error(pre, deps, env, info, pairs, start_time, pay_per_month, recipient) {
        Some(e) => Err(e),
        None => {
            let id = pre.stream_indexer;
            let stream = created_stream(
                env,
                pairs,
                start_time,
                pay_per_month,
                recipient,
                text_or_empty(remarks),
            );
            Ok(
                (
                    LedgerView {
                        stream_indexer: (id + 1) as u64,
                        streams: pre.streams.insert(id, stream),
                        user_streams: pre.user_streams.insert(
                            recipient,
                            with_value(ids_or_empty(pre.user_streams, recipient), id),
                        ),
                        ..pre
                    },
                    ResponseView::new().event(
                        stream_created_event(
                            id,
                            stream,
                            whitelisted_addresses,
                            info.sender@,
                            pay_per_month,
                        ),
                    ),
                ),
            )
        },
    }
}

/// The ids of an optional list with `id` added, unless it is there already.
pub fn ids_with(ids: Option<&Vec<u64>>, id: u64) -> (out: Vec<u64>)
    ensures
        out@ == with_value(
            match ids {
                Some(list) => list@,
                None => Seq::empty(),
            },
            id,
        ),
{
    let mut out: Vec<u64> = Vec::new();
    let mut found: bool = false;
    if let Some(list) = ids {
        let mut i: usize = 0;
        while i < list.len()
            invariant
                i <= list.len(),
                out@ == list@.take(i as int),
                found == list@.take(i as int).contains(id),
            decreases list.len() - i,
        {
            proof {
                let shorter = list@.take(i as int);
                let longer = list@.take(i + 1);
                assert(longer =~= shorter.push(list@[i as int]));
                if list@[i as int] == id {
                    assert(longer[i as int] == id);
                } else if shorter.contains(id) {
                    let j = choose|j: int| 0 <= j < shorter.len() && shorter[j] == id;
                    assert(longer[j] == id);
                } else {
                    assert forall|j: int| 0 <= j < longer.len() implies longer[j] != id by {
                        if j < i {
                            assert(shorter[j] == longer[j]);
                            assert(shorter.contains(shorter[j]));
                        }
                    }
                }
            }
            if list[i] == id {
                found = true;
            }
            out.push(list[i]);
            i = i + 1;
        }
        assert(list@.take(i as int) =~= list@);
    }
    if !found {
        out.push(id);
    }
    out
}

/// The ids of a list without `id`.
pub fn ids_without(ids: &Vec<u64>, id: u64) -> (out: Vec<u64>)
    ensures
        out@ == without(ids@, id),
{
    let mut out: Vec<u64> = Vec::new();
    let mut i: usize = 0;
    proof {
        lemma_without_empty(id);
        assert(ids@.take(0) =~= Seq::empty());
    }
    while i < ids.len()
        invariant
            i <= ids.len(),
            out@ == without(ids@.take(i as int), id),
        decreases ids.len() - i,
    {
        proof {
            assert(ids@.take(i + 1) =~= ids@.take(i as int).push(ids@[i as int]));
            lemma_without_push(ids@.take(i as int), ids@[i as int], id);
        }
        if ids[i] != id {
            out.push(ids[i]);
        }
        i = i + 1;
    }
    assert(ids@.take(i as int) =~= ids@);
    out
}

/// Creates a stream for `recipient` at the rate per second that
/// `pay_per_month` gives.
#[verifier::loop_isolation(false)]
pub fn create_stream(
    store: &mut Ledger,
    deps: &Deps,
    env: &Env,
    info: &MessageInfo,
    whitelisted_addresses: Option<Vec<(String, String)>>,
    start_time: u64,
    pay_per_month: u128,
    recipient: String,
    remarks: Option<String>,
) -> (res: Result<Response, LedgerError>)
    ensures
        agrees(
            create_stream_outcome(
                old(store)@,
                *deps,
                *env,
                *info,
                whitelisted_addresses,
                start_time,
                pay_per_month,
                recipient@,
                remarks,
            ),
            old(store)@,
            final(store)@,
            res,
        ),
{
    match is_owner(store, deps, info) {
        Err(e) => {
            return Err(e);
        },
        Ok(_) => {},
    }
    if !deps.api.addr_validate(&recipient) {
        return Err(LedgerError::InvalidAddress);
    }
    let rate: u128 = pay_per_sec(pay_per_month);
    if rate == 0 {
        return Err(LedgerError::RateTooLow);
    }
    let start: u64 = if start_time == 0 {
        env.block_time
    } else {
        start_time
    };
    if start < env.block_time {
        return Err(LedgerError::StartTimeInPast);
    }
    let stream_id: u64 = store.stream_indexer;
    if stream_id == u64::MAX {
        return Err(LedgerError::Overflow);
    }
    let ghost pairs = pairs_or_none(whitelisted_addresses);
    let ghost init = seq![(env.chain_id@, recipient@)];
    let mut list = Whitelist::new();
    list.insert(env.chain_id.clone(), recipient.clone());
    assert(list@ =~= init);
    if let Some(given) = &whitelisted_addresses {
        let mut i: usize = 0;
        while i < given.len()
            invariant
                i <= given.len(),
                pairs == pairs_view(given@),
                *store == *old(store),
                list@ == whitelist_of(init, pairs.take(i as int)),
                chains_registered(store@, pairs.take(i as int)),
            decreases given.len() - i,
        {
            assert(pairs.take(i + 1).drop_last() =~= pairs.take(i as int));
            assert(pairs.take(i + 1).last() == pairs[i as int]);
            if store.load_remote_contract(&given[i].0).is_none() {
                assert(!store@.remote_contracts.contains_key(pairs[i as int].0));
                return Err(LedgerError::InvalidChainId);
            }
            list.insert(given[i].0.clone(), given[i].1.clone());
            assert forall|j: int| 0 <= j < i + 1 implies store@.remote_contracts.contains_key(
                (#[trigger] pairs.take(i + 1)[j]).0,
            ) by {
                if j < i {
                    assert(pairs.take(i as int)[j] == pairs.take(i + 1)[j]);
                }
            }
            i = i + 1;
        }
        assert(pairs.take(i as int) =~= pairs);
    }
    let reason: String = match &remarks {
        Some(r) => r.clone(),
        None => String::new(),
    };
    let stream = RouterPayStreamMetadata {
        recipient_owner: recipient.clone(),
        created_at: env.block_time,
        start_time: start,
        pay_per_sec: rate,
        reason: reason.clone(),
        last_withdrawn_at: start,
        is_sending: false,
        whitelisted_addresses: list,
    };
    let ghost expected = created_stream(
        *env,
        pairs,
        start_time,
        pay_per_month,
        recipient@,
        text_or_empty(remarks),
    );
    assert(stream@ == expected);
    let ids: Vec<u64> = ids_with(store.load_user_streams(&recipient), stream_id);
    store.stream_indexer = stream_id + 1;
    store.save_stream(stream_id, stream);
    store.save_user_streams(recipient.clone(), ids);
    let mut event = Event::new(EventKind::StreamCreated).add_number(
        AttrKey::StreamId,
        stream_id as u128,
    ).add_pairs(AttrKey::WhitelistedAddresses, whitelisted_addresses).add_text(
        AttrKey::Recipient,
        recipient,
    ).add_number(AttrKey::CreatedAt, env.block_time as u128).add_text(
        AttrKey::CreatedBy,
        info.sender.clone(),
    ).add_number(AttrKey::StartTime, start as u128).add_number(
        AttrKey::PayPerSec,
        rate,
    ).add_number(AttrKey::PayPerMonth, pay_per_month);
    if !reason.as_str().is_empty() {
        event = event.add_text(AttrKey::Reason, reason);
    }
    Ok(Response::new().add_event(event))
}

/// What the ledger can pay from during a call: its balance and the funds
/// that the call carries.
pub open spec fn available_balance(deps: Deps, env: Env, info: MessageInfo) -> int {
    route_balance_of(deps, env.contract_address@) + match route_fund(info) {
        Some(amount) => amount as int,
        None => 0,
    }
}

/// The event that records a cancellation.
pub open spec fn stream_cancelled_event(
    stream_id: u64,
    cancelled_by: Seq<char>,
    cancelled_at: u64,
    reason: Seq<char>,
    paid_to: Seq<char>,
    amount: int,
) -> EventView {
    EventView::new(EventKind::StreamCancelled).number(AttrKey::StreamId, stream_id as int).text(
        AttrKey::CancelledBy,
        cancelled_by,
    ).number(AttrKey::CancelledAt, cancelled_at as int).text(AttrKey::Reason, reason).text(
        AttrKey::PaidTo,
        paid_to,
    ).number(AttrKey::AmountPaidToPayee, amount)
}

/// What the cancellation of a stream does. It fails, in this order, where
/// the caller is not the administrator, the stream does not exist, the
/// stream has not started, the amount owed or the balance leaves its range,
/// the amount owed exceeds the balance, or the owner has no entry in the
/// user index. Otherwise the
/// stream leaves the state and its owner's streams, and what it owes up to
/// now is paid to its owner. Records of withdrawals in flight are left as
/// they are.
pub open spec fn cancel_stream_outcome(
    pre: LedgerView,
    deps: Deps,
    env: Env,
    info: MessageInfo,
    stream_id: u64,
    remarks: Option<String>,
) -> Outcome {
    if owner_check(pre, deps, info) is Some {
        Err(owner_check(pre, deps, info)->Some_0)
    } else if !pre.streams.contains_key(stream_id) {
        Err(LedgerError::StreamNotFound)
    } else {
        let stream = pre.streams[stream_id];
        let owed = accrued(stream.pay_per_sec, stream.last_withdrawn_at, env.block_time);
        if env.block_time < stream.last_withdrawn_at {
            Err(LedgerError::StreamNotStarted)
        } else if !accrual_defined(stream.pay_per_sec, stream.last_withdrawn_at, env.block_time) {
            Err(LedgerError::Overflow)
        } else if available_balance(deps, env, info) > u128::MAX {
            Err(LedgerError::Overflow)
        } else if owed > available_balance(deps, env, info) {
            Err(LedgerError::InsufficientBalance)
        } else if !pre.user_streams.contains_key(stream.recipient_owner) {
            Err(LedgerError::UserIndexMissing)
        } else {
            let paid = if owed > 0 {
                ResponseView::new().message(
                    OutMsgView::BankSend { to_address: stream.recipient_owner, amount: owed as u128 },
                )
            } else {
                ResponseView::new()
            };
            Ok(
                (
                    LedgerView {
                        streams: pre.streams.remove(stream_id),
                        user_streams: pre.user_streams.insert(
                            stream.recipient_owner,
                            without(pre.user_streams[stream.recipient_owner], stream_id),
                        ),
                        ..pre
                    },
                    paid.event(
                        stream_cancelled_event(
                            stream_id,
                            info.sender@,
                            env.block_time,
                            text_or_empty(remarks),
                            stream.recipient_owner,
                            owed,
                        ),
                    ),
                ),
            )
        }
    }
}

/// Cancels a stream and pays its owner what it owes up to now.
pub fn cancel_stream(
    store: &mut Ledger,
    deps: &Deps,
    env: &Env,
    info: &MessageInfo,
    stream_id: u64,
    remarks: Option<String>,
) -> (res: Result<Response, LedgerError>)
    ensures
        agrees(
            cancel_stream_outcome(old(store)@, *deps, *env, *info, stream_id, remarks),
            old(store)@,
            final(store)@,
            res,
        ),
{
    match is_owner(store, deps, info) {
        Err(e) => {
            return Err(e);
        },
        Ok(_) => {},
    }
    let stream: &RouterPayStreamMetadata = match store.load_stream(stream_id) {
        Some(s) => s,
        None => {
            return Err(LedgerError::StreamNotFound);
        },
    };
    if env.block_time < stream.last_withdrawn_at {
        return Err(LedgerError::StreamNotStarted);
    }
    let owed: u128 = match accrual(stream.pay_per_sec, stream.last_withdrawn_at, env.block_time) {
        Some(a) => a,
        None => {
            return Err(LedgerError::Overflow);
        },
    };
    let mut balance: u128 = match get_route_balance(deps, &env.contract_address) {
        Ok(b) => b,
        Err(e) => {
            return Err(e);
        },
    };
    match check_valid_route_fund(info) {
        Ok(amount) => {
            balance = match balance.checked_add(amount) {
                Some(sum) => sum,
                None => {
                    return Err(LedgerError::Overflow);
                },
            };
        },
        Err(_) => {},
    }
    if owed > balance {
        return Err(LedgerError::InsufficientBalance);
    }
    let owner: String = stream.recipient_owner.clone();
    let ids: Vec<u64> = match store.load_user_streams(&owner) {
        Some(list) => ids_without(list, stream_id),
        None => {
            return Err(LedgerError::UserIndexMissing);
        },
    };
    let mut response = Response::new();
    if owed > 0 {
        response = response.add_message(OutMsg::BankSend { to_address: owner.clone(), amount: owed });
    }
    store.take_stream(stream_id);
    store.save_user_streams(owner.clone(), ids);
    let reason: String = match remarks {
        Some(r) => r,
        None => String::new(),
    };
    let event = Event::new(EventKind::StreamCancelled).add_number(
        AttrKey::StreamId,
        stream_id as u128,
    ).add_text(AttrKey::CancelledBy, info.sender.clone()).add_number(
        AttrKey::CancelledAt,
        env.block_time as u128,
    ).add_text(AttrKey::Reason, reason).add_text(AttrKey::PaidTo, owner).add_number(
        AttrKey::AmountPaidToPayee,
        owed,
    );
    Ok(response.add_event(event))
}

/// The event that records a change of a whitelist.
pub open spec fn whitelist_event(
    enable: bool,
    address: Seq<char>,
    chain_id: Seq<char>,
    by: Seq<char>,
) -> EventView {
    if enable {
        EventView::new(EventKind::WhiteListedAddress).text(AttrKey::Address, address).text(
            AttrKey::ChainId,
            chain_id,
        ).text(AttrKey::WhitelistedBy, by)
    } else {
        EventView::new(EventKind::BlackListedAddress).text(AttrKey::Address, address).text(
            AttrKey::ChainId,
            chain_id,
        ).text(AttrKey::BlacklistedBy, by)
    }
}

/// What an update of a whitelist does. It fails, in this order, where the
/// stream does not exist, the caller is not the stream's owner, or the entry
/// is already there when it is to be enabled, or not there when it is to be
/// disabled. Otherwise the pair of the chain and the lower-case address
/// joins or leaves the stream's whitelist.
pub open spec fn update_whitelist_address_outcome(
    pre: LedgerView,
    info: MessageInfo,
    stream_id: u64,
    address: Seq<char>,
    chain_id: Seq<char>,
    to: bool,
) -> Outcome {
    if !pre.streams.contains_key(stream_id) {
        Err(LedgerError::StreamNotFound)
    } else {
        let stream = pre.streams[stream_id];
        let entry = (chain_id, lowercase_of(address));
        if stream.recipient_owner != info.sender@ {
            Err(LedgerError::NotAuthorized)
        } else if to && stream.whitelisted_addresses.contains(entry) {
            Err(LedgerError::AlreadyWhitelisted)
        } else if !to && !stream.whitelisted_addresses.contains(entry) {
            Err(LedgerError::NotWhitelisted)
        } else {
            let list = if to {
                stream.whitelisted_addresses.push(entry)
            } else {
                without(stream.whitelisted_addresses, entry)
            };
            Ok(
                (
                    LedgerView {
                        streams: pre.streams.insert(stream_id, stream.with_whitelist(list)),
                        ..pre
                    },
                    ResponseView::new().event(
                        whitelist_event(to, lowercase_of(address), chain_id, info.sender@),
                    ),
                ),
            )
        }
    }
}

/// Enables or disables a party in the whitelist of a stream.
pub fn update_whitelist_address(
    store: &mut Ledger,
    info: &MessageInfo,
    stream_id: u64,
    address: String,
    chain_id: String,
    to: bool,
) -> (res: Result<Response, LedgerError>)
    ensures
        agrees(
            update_whitelist_address_outcome(
                old(store)@,
                *info,
                stream_id,
                address@,
                chain_id@,
                to,
            ),
            old(store)@,
            final(store)@,
            res,
        ),
{
    let lower: String = lowercase(&address);
    let listed: bool = match store.load_stream(stream_id) {
        None => {
            return Err(LedgerError::StreamNotFound);
        },
        Some(stream) => {
            if stream.recipient_owner != info.sender {
                return Err(LedgerError::NotAuthorized);
            }
            stream.whitelisted_addresses.contains(&chain_id, &lower)
        },
    };
    if to && listed {
        return Err(LedgerError::AlreadyWhitelisted);
    }
    if !to && !listed {
        return Err(LedgerError::NotWhitelisted);
    }
    let mut stream: RouterPayStreamMetadata = match store.take_stream(stream_id) {
        Some(s) => s,
        None => {
            return Err(LedgerError::StreamNotFound);
        },
    };
    let event;
    if to {
        stream.whitelisted_addresses.insert(chain_id.clone(), lower.clone());
        event = Event::new(EventKind::WhiteListedAddress).add_text(AttrKey::Address, lower).add_text(
            AttrKey::ChainId,
            chain_id,
        ).add_text(AttrKey::WhitelistedBy, info.sender.clone());
    } else {
        stream.whitelisted_addresses.remove(&chain_id, &lower);
        event = Event::new(EventKind::BlackListedAddress).add_text(AttrKey::Address, lower).add_text(
            AttrKey::ChainId,
            chain_id,
        ).add_text(AttrKey::BlacklistedBy, info.sender.clone());
    }
    store.save_stream(stream_id, stream);
    assert(store@.streams =~= update_whitelist_address_outcome(
        old(store)@,
        *info,
        stream_id,
        address@,
        chain_id@,
        to,
    )->Ok_0.0.streams);
    Ok(Response::new().add_event(event))
}

/// What a request does: what the operation that it names does, with the
/// caller as the sender and the ledger's chain as the chain of origin.
pub open spec fn handle_execute_outcome(
    pre: LedgerView,
    deps: Deps,
    env: Env,
    info: MessageInfo,
    msg: ExecuteMsg,
) -> Outcome {
    match msg {
        ExecuteMsg::EnrollRemoteContract { chain_id, remote_contract } =>
            enroll_remote_contract_outcome(pre, deps, info, chain_id@, remote_contract@),
        ExecuteMsg::MapChainType { chain_id, chain_type } => map_chain_type_outcome(
            pre,
            deps,
            info,
            chain_id@,
            chain_type,
        ),
        ExecuteMsg::CreateStream {
            whitelisted_addresses,
            start_time,
            pay_per_month,
            recipient,
            remarks,
        } => create_stream_outcome(
            pre,
            deps,
            env,
            info,
            whitelisted_addresses,
            start_time,
            pay_per_month,
            recipient@,
            remarks,
        ),
        ExecuteMsg::CancelStream { stream_id, remarks } => cancel_stream_outcome(
            pre,
            deps,
            env,
            info,
            stream_id,
            remarks,
        ),
        ExecuteMsg::WithdrawFunds { recipient, amount } => withdraw_funds_outcome(
            pre,
            deps,
            info,
            recipient@,
            amount,
        ),
        ExecuteMsg::DepositRoute {  } => deposit_route_outcome(pre, deps, info),
        ExecuteMsg::WithdrawSalary { stream_id, recipient, dst_chain_id, max_amount } =>
            withdraw_salary_outcome(
            pre,
            deps,
            env,
            stream_id,
            max_amount,
            recipient@,
            optional_text_view(dst_chain_id),
            info.sender@,
            env.chain_id@,
        ),
        ExecuteMsg::UpdateWhiteListAddress { stream_id, address, chain_id, to } =>
            update_whitelist_address_outcome(pre, info, stream_id, address@, chain_id@, to),
        ExecuteMsg::UpdateCrossChainMetadata { dst_gas_limit, ack_gas_limit, relayer_fee } =>
            update_crosschain_metadata_outcome(
            pre,
            deps,
            info,
            dst_gas_limit,
            ack_gas_limit,
            relayer_fee,
        ),
    }
}

/// Carries out a request.
pub fn handle_execute(
    store: &mut Ledger,
    deps: &Deps,
    env: &Env,
    info: &MessageInfo,
    msg: ExecuteMsg,
) -> (res: Result<Response, LedgerError>)
    ensures
        agrees(
            handle_execute_outcome(old(store)@, *deps, *env, *info, msg),
            old(store)@,
            final(store)@,
            res,
        ),
{
    match msg {
        ExecuteMsg::EnrollRemoteContract { chain_id, remote_contract } => enroll_remote_contract(
            store,
            deps,
            info,
            chain_id,
            remote_contract,
        ),
        ExecuteMsg::MapChainType { chain_id, chain_type } => map_chain_type(
            store,
            deps,
            info,
            chain_id,
            chain_type,
        ),
        ExecuteMsg::CreateStream {
            whitelisted_addresses,
            start_time,
            pay_per_month,
            recipient,
            remarks,
        } => create_stream(
            store,
            deps,
            env,
            info,
            whitelisted_addresses,
            start_time,
            pay_per_month,
            recipient,
            remarks,
        ),
        ExecuteMsg::CancelStream { stream_id, remarks } => cancel_stream(
            store,
            deps,
            env,
            info,
            stream_id,
            remarks,
        ),
        ExecuteMsg::WithdrawFunds { recipient, amount } => withdraw_funds(
            store,
            deps,
            info,
            recipient,
            amount,
        ),
        ExecuteMsg::DepositRoute {  } => deposit_route(store, deps, info),
        ExecuteMsg::WithdrawSalary { stream_id, recipient, dst_chain_id, max_amount } =>
            withdraw_salary(
            store,
            deps,
            env,
            stream_id,
            max_amount,
            recipient,
            dst_chain_id,
            info.sender.clone(),
            env.chain_id.clone(),
        ),
        ExecuteMsg::UpdateWhiteListAddress { stream_id, address, chain_id, to } =>
            update_whitelist_address(store, info, stream_id, address, chain_id, to),
        ExecuteMsg::UpdateCrossChainMetadata { dst_gas_limit, ack_gas_limit, relayer_fee } =>
            update_crosschain_metadata(store, deps, info, dst_gas_limit, ack_gas_limit, relayer_fee),
    }
}

} // verus!
