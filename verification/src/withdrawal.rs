//! Withdrawals: the checks that every withdrawal passes, the payout on the
//! ledger's own chain, and the dispatch of a payout to another chain.

use crate::abi::{
    abi_encode, abi_encoded_len, abi_encoding, check_fits_encoder, fits_encoder, padded,
    request_metadata_bytes, request_metadata_encoding, text_byte_len, tokens_view, AbiToken,
    AbiTokenView, AckType,
};
use crate::accrual::{accrual_defined, settle, settlement, WithDrawResponse};
use crate::errors::LedgerError;
use crate::host::{get_oracle_gas_price, get_route_balance, route_balance_of, Deps, Env};
use crate::ledger::{agrees, optional_text_view, Ledger, LedgerView, Outcome};
use crate::msg::CREATE_OUTBOUND_REPLY_ID;
use crate::response::{
    AttrKey, Event, EventKind, EventView, OutMsg, OutMsgView, ReplyOn, Response, ResponseView,
};
use crate::stream::{OutboundInfo, RouterPayStreamMetadata};
use vstd::prelude::*;
use vstd::utf8::encode_utf8;

verus! {

/// What the checks before a withdrawal give. They fail, in this order,
/// where the stream does not exist, the caller is neither whitelisted on its
/// chain nor the stream's owner, a withdrawal of the stream is in flight,
/// the stream has not started, the amount owed leaves its range, or the
/// settled amount exceeds the ledger's balance. Otherwise they give the settlement at the block's time
/// under the cap.
pub open spec fn before_withdraw_result(
    pre: LedgerView,
    deps: Deps,
    env: Env,
    stream_id: u64,
    max_amount: Option<u128>,
    sender: Seq<char>,
    chain_id: Seq<char>,
) -> Result<WithDrawResponse, LedgerError> {
    if !pre.streams.contains_key(stream_id) {
        Err(LedgerError::StreamNotFound)
    } else {
        let stream = pre.streams[stream_id];
        let settled = settlement(
            stream.pay_per_sec,
            stream.last_withdrawn_at,
            env.block_time,
            max_amount,
        );
        if !stream.may_withdraw(chain_id, sender) {
            Err(LedgerError::NotAuthorized)
        } else if stream.is_sending {
            Err(LedgerError::AlreadyPending)
        } else if env.block_time < stream.last_withdrawn_at {
            Err(LedgerError::StreamNotStarted)
        } else if !accrual_defined(stream.pay_per_sec, stream.last_withdrawn_at, env.block_time) {
            Err(LedgerError::Overflow)
        } else if settled.total_amount_to_be_paid > route_balance_of(deps, env.contract_address@) {
            Err(LedgerError::InsufficientBalance)
        } else {
            Ok(settled)
        }
    }
}

/// Runs the checks that every withdrawal passes and computes what it settles.
pub fn before_withdraw(
    store: &Ledger,
    deps: &Deps,
    env: &Env,
    stream_id: u64,
    max_amount: Option<u128>,
    sender: &String,
    chain_id: &String,
) -> (res: Result<WithDrawResponse, LedgerError>)
    ensures
        res == before_withdraw_result(
            store@,
            *deps,
            *env,
            stream_id,
            max_amount,
            sender@,
            chain_id@,
        ),
{
    let stream: &RouterPayStreamMetadata = match store.load_stream(stream_id) {
        Some(s) => s,
        None => {
            return Err(LedgerError::StreamNotFound);
        },
    };
    if !stream.whitelisted_addresses.contains(chain_id, sender) && stream.recipient_owner
        != *sender {
        return Err(LedgerError::NotAuthorized);
    }
    if stream.is_sending {
        return Err(LedgerError::AlreadyPending);
    }
    if env.block_time < stream.last_withdrawn_at {
        return Err(LedgerError::StreamNotStarted);
    }
    let settled: WithDrawResponse = match settle(
        stream.pay_per_sec,
        stream.last_withdrawn_at,
        env.block_time,
        max_amount,
    ) {
        Some(w) => w,
        None => {
            return Err(LedgerError::Overflow);
        },
    };
    let balance: u128 = match get_route_balance(deps, &env.contract_address) {
        Ok(b) => b,
        Err(e) => {
            return Err(e);
        },
    };
    if settled.total_amount_to_be_paid > balance {
        return Err(LedgerError::InsufficientBalance);
    }
    Ok(settled)
}

/// The event that records a withdrawal.
pub open spec fn withdraw_event(
    kind: EventKind,
    stream_id: u64,
    settled: WithDrawResponse,
    recipient: Seq<char>,
) -> EventView {
    EventView::new(kind).number(AttrKey::StreamId, stream_id as int).number(
        AttrKey::Amount,
        settled.total_amount_to_be_paid as int,
    ).number(AttrKey::PaidFromSec, settled.paid_from_sec as int).number(
        AttrKey::PaidToSec,
        settled.paid_to_sec as int,
    ).text(AttrKey::Recipient, recipient)
}

/// The event that records a withdrawal.
fn make_withdraw_event(
    kind: EventKind,
    stream_id: u64,
    settled: WithDrawResponse,
    recipient: String,
) -> (event: Event)
    ensures
        event@ == withdraw_event(kind, stream_id, settled, recipient@),
{
    Event::new(kind).add_number(AttrKey::StreamId, stream_id as u128).add_number(
        AttrKey::Amount,
        settled.total_amount_to_be_paid,
    ).add_number(AttrKey::PaidFromSec, settled.paid_from_sec as u128).add_number(
        AttrKey::PaidToSec,
        settled.paid_to_sec as u128,
    ).add_text(AttrKey::Recipient, recipient)
}

/// What a withdrawal on the ledger's own chain does. It fails where the
/// recipient is no valid account or a check before the withdrawal fails.
/// Otherwise the stream is settled up to the settlement's time and the
/// settled amount is paid to the recipient.
pub open spec fn withdraw_on_router_chain_outcome(
    pre: LedgerView,
    deps: Deps,
    env: Env,
    stream_id: u64,
    max_amount: Option<u128>,
    recipient: Seq<char>,
    sender: Seq<char>,
    src_chain_id: Seq<char>,
) -> Outcome {
    if !deps.api.accepts(recipient) {
        Err(LedgerError::InvalidAddress)
    } else {
        match before_withdraw_result(pre, deps, env, stream_id, max_amount, sender, src_chain_id) {
            Err(e) => Err(e),
            Ok(settled) => Ok(
                (
                    LedgerView {
                        streams: pre.streams.insert(
                            stream_id,
                            pre.streams[stream_id].settled_to(settled.paid_to_sec),
                        ),
                        ..pre
                    },
                    ResponseView::new().message(
                        OutMsgView::BankSend {
                            to_address: recipient,
                            amount: settled.total_amount_to_be_paid,
                        },
                    ).event(
                        withdraw_event(
                            EventKind::WithdrawOnRouterChain,
                            stream_id,
                            settled,
                            recipient,
                        ),
                    ),
                ),
            ),
        }
    }
}

/// Settles a stream and pays the recipient on the ledger's own chain.
pub fn withdraw_on_router_chain(
    store: &mut Ledger,
    deps: &Deps,
    env: &Env,
    stream_id: u64,
    max_amount: Option<u128>,
    recipient: String,
    sender: String,
    src_chain_id: String,
) -> (res: Result<Response, LedgerError>)
    ensures
        agrees(
            withdraw_on_router_chain_outcome(
                old(store)@,
                *deps,
                *env,
                stream_id,
                max_amount,
                recipient@,
                sender@,
                src_chain_id@,
            ),
            old(store)@,
            final(store)@,
            res,
        ),
{
    if !deps.api.addr_validate(&recipient) {
        return Err(LedgerError::InvalidAddress);
    }
    let settled: WithDrawResponse = match before_withdraw(
        store,
        deps,
        env,
        stream_id,
        max_amount,
        &sender,
        &src_chain_id,
    ) {
        Ok(w) => w,
        Err(e) => {
            return Err(e);
        },
    };
    let mut stream: RouterPayStreamMetadata = match store.take_stream(stream_id) {
        Some(s) => s,
        None => {
            return Err(LedgerError::StreamNotFound);
        },
    };
    stream.last_withdrawn_at = settled.paid_to_sec;
    store.save_stream(stream_id, stream);
    assert(store@.streams =~= old(store)@.streams.insert(
        stream_id,
        old(store)@.streams[stream_id].settled_to(settled.paid_to_sec),
    ));
    let msg = OutMsg::BankSend {
        to_address: recipient.clone(),
        amount: settled.total_amount_to_be_paid,
    };
    let event = make_withdraw_event(EventKind::WithdrawOnRouterChain, stream_id, settled, recipient);
    Ok(Response::new().add_message(msg).add_event(event))
}

/// The four words of an amount as an integer of 256 bits, least significant
/// first.
pub open spec fn amount_words(amount: u128) -> Seq<u64> {
    seq![
        (amount as int % 0x1_0000_0000_0000_0000) as u64,
        (amount as int / 0x1_0000_0000_0000_0000) as u64,
        0u64,
        0u64,
    ]
}

/// The inner payload of a payout request: the amount and the recipient.
pub open spec fn payment_payload(amount: u128, recipient: Seq<char>) -> Seq<u8> {
    abi_encoding(seq![AbiTokenView::Uint(amount_words(amount)), AbiTokenView::Text(recipient)])
}

/// The packet of a payout request: the remote contract's address and the
/// inner payload.
pub open spec fn payment_packet(contract: Seq<char>, amount: u128, recipient: Seq<char>) -> Seq<
    u8,
> {
    abi_encoding(
        seq![
            AbiTokenView::Text(contract),
            AbiTokenView::Bytes(payment_payload(amount, recipient)),
        ],
    )
}

/// The number of bytes of the packet of a payout request: 224 for the
/// places, the lengths and the amount, and the bytes of the remote
/// contract's address and of the recipient, each filled up to whole words.
pub open spec fn payment_packet_len(contract: Seq<char>, recipient: Seq<char>) -> nat {
    224 + padded(encode_utf8(contract).len()) + padded(encode_utf8(recipient).len())
}

/// Whether the packet of a payout request is no longer than the encoder can
/// produce.
pub open spec fn packet_encodable(contract: Seq<char>, recipient: Seq<char>) -> bool {
    fits_encoder(payment_packet_len(contract, recipient))
}

/// Whether the packet of a payout request is no longer than the encoder can
/// produce.
pub fn check_packet_encodable(contract: &String, recipient: &String) -> (fits: bool)
    ensures
        fits == packet_encodable(contract@, recipient@),
{
    let c: u128 = text_byte_len(contract) as u128;
    let r: u128 = text_byte_len(recipient) as u128;
    let padded_c: u128 = ((c + 31) / 32) * 32;
    let padded_r: u128 = ((r + 31) / 32) * 32;
    check_fits_encoder(224 + padded_c + padded_r)
}

/// Encodes the packet of a payout request.
pub fn encode_payment_packet(contract: &String, amount: u128, recipient: &String) -> (packet: Vec<
    u8,
>)
    requires
        packet_encodable(contract@, recipient@),
    ensures
        packet@ == payment_packet(contract@, amount, recipient@),
        packet@.len() == payment_packet_len(contract@, recipient@),
{
    let low: u64 = (amount % 0x1_0000_0000_0000_0000) as u64;
    let high: u64 = (amount / 0x1_0000_0000_0000_0000) as u64;
    let words: [u64; 4] = [low, high, 0, 0];
    assert(words@ =~= amount_words(amount));
    let mut inner: Vec<AbiToken> = Vec::new();
    inner.push(AbiToken::Uint(words));
    inner.push(AbiToken::Text(recipient.clone()));
    let ghost inner_view = seq![
        AbiTokenView::Uint(amount_words(amount)),
        AbiTokenView::Text(recipient@),
    ];
    assert(tokens_view(inner@) =~= inner_view);
    proof {
        reveal_with_fuel(abi_encoded_len, 3);
        assert(inner_view.drop_last() =~= seq![AbiTokenView::Uint(amount_words(amount))]);
        assert(inner_view.drop_last().drop_last() =~= Seq::<AbiTokenView>::empty());
        assert(abi_encoded_len(inner_view) == 96 + padded(encode_utf8(recipient@).len()));
    }
    let payload: Vec<u8> = abi_encode(&inner);
    let mut outer: Vec<AbiToken> = Vec::new();
    outer.push(AbiToken::Text(contract.clone()));
    outer.push(AbiToken::Bytes(payload));
    let ghost outer_view = seq![
        AbiTokenView::Text(contract@),
        AbiTokenView::Bytes(payment_payload(amount, recipient@)),
    ];
    assert(tokens_view(outer@) =~= outer_view);
    proof {
        reveal_with_fuel(abi_encoded_len, 3);
        assert(outer_view.drop_last() =~= seq![AbiTokenView::Text(contract@)]);
        assert(outer_view.drop_last().drop_last() =~= Seq::<AbiTokenView>::empty());
        assert(padded(payload@.len()) == payload@.len());
        assert(abi_encoded_len(outer_view) == payment_packet_len(contract@, recipient@));
    }
    abi_encode(&outer)
}

/// What the dispatch of a payout to another chain does. It fails, in this
/// order, where a check before the withdrawal fails, no remote contract is
/// registered for the destination, the packet would be longer than the
/// encoder can produce, or the oracle has no gas price for the destination
/// or for the ledger's own chain. Otherwise the stream is marked as sending,
/// the settlement is recorded as the current attempt, and the request is
/// handed to the messaging layer, which is asked to report back how the
/// dispatch went and to acknowledge the delivery whether it succeeds or
/// fails; the stream's settled time stays as it is.
pub open spec fn withdraw_on_other_chain_outcome(
    pre: LedgerView,
    deps: Deps,
    env: Env,
    stream_id: u64,
    max_amount: Option<u128>,
    recipient: Seq<char>,
    dst_chain_id: Seq<char>,
    sender: Seq<char>,
    src_chain_id: Seq<char>,
) -> Outcome {
    match before_withdraw_result(pre, deps, env, stream_id, max_amount, sender, src_chain_id) {
        Err(e) => Err(e),
        Ok(settled) => {
            if !pre.remote_contracts.contains_key(dst_chain_id) {
                Err(LedgerError::DstChainNotSupported)
            } else if !packet_encodable(pre.remote_contracts[dst_chain_id], recipient) {
                Err(LedgerError::PayloadTooLarge)
            } else if !deps.querier.gas_prices@.contains_key(dst_chain_id)
                || !deps.querier.gas_prices@.contains_key(env.chain_id@) {
                Err(LedgerError::GasPriceUnavailable)
            } else {
                Ok(
                    (
                        LedgerView {
                            streams: pre.streams.insert(
                                stream_id,
                                pre.streams[stream_id].with_sending(true),
                            ),
                            temp_outbound_info: Some(
                                OutboundInfo {
                                    stream_id,
                                    total_amount_to_be_paid: settled.total_amount_to_be_paid,
                                    paid_to_sec: settled.paid_to_sec,
                                },
                            ),
                            ..pre
                        },
                        ResponseView::new().message(
                            OutMsgView::CrosschainCall {
                                reply_id: CREATE_OUTBOUND_REPLY_ID,
                                reply_on: ReplyOn::Always,
                                version: 1,
                                route_amount: settled.total_amount_to_be_paid,
                                route_recipient: recipient,
                                dest_chain_id: dst_chain_id,
                                request_metadata: request_metadata_encoding(
                                    pre.dst_gas_limit,
                                    deps.querier.gas_prices@[dst_chain_id],
                                    pre.ack_gas_limit,
                                    deps.querier.gas_prices@[env.chain_id@],
                                    pre.relayer_fee,
                                    AckType::AckOnBoth,
                                    false,
                                    Seq::empty(),
                                ),
                                request_packet: payment_packet(
                                    pre.remote_contracts[dst_chain_id],
                                    settled.total_amount_to_be_paid,
                                    recipient,
                                ),
                            },
                        ).event(
                            withdraw_event(
                                EventKind::WithdrawOnOtherChain,
                                stream_id,
                                settled,
                                recipient,
                            ),
                        ),
                    ),
                )
            }
        },
    }
}

/// Starts a payout to another chain: marks the stream as sending, records
/// the attempt, and hands the request to the messaging layer.
pub fn withdraw_on_other_chain(
    store: &mut Ledger,
    deps: &Deps,
    env: &Env,
    stream_id: u64,
    max_amount: Option<u128>,
    recipient: String,
    dst_chain_id: String,
    sender: String,
    src_chain_id: String,
) -> (res: Result<Response, LedgerError>)
    ensures
        agrees(
            withdraw_on_other_chain_outcome(
                old(store)@,
                *deps,
                *env,
                stream_id,
                max_amount,
                recipient@,
                dst_chain_id@,
                sender@,
                src_chain_id@,
            ),
            old(store)@,
            final(store)@,
            res,
        ),
{
    let settled: WithDrawResponse = match before_withdraw(
        store,
        deps,
        env,
        stream_id,
        max_amount,
        &sender,
        &src_chain_id,
    ) {
        Ok(w) => w,
        Err(e) => {
            return Err(e);
        },
    };
    let contract: String = match store.load_remote_contract(&dst_chain_id) {
        Some(c) => c.clone(),
        None => {
            return Err(LedgerError::DstChainNotSupported);
        },
    };
    if !check_packet_encodable(&contract, &recipient) {
        return Err(LedgerError::PayloadTooLarge);
    }
    let dst_gas_price: u64 = match get_oracle_gas_price(deps, &dst_chain_id) {
        Ok(price) => price.gas_price,
        Err(e) => {
            return Err(e);
        },
    };
    let ack_gas_price: u64 = match get_oracle_gas_price(deps, &env.chain_id) {
        Ok(price) => price.gas_price,
        Err(e) => {
            return Err(e);
        },
    };
    let request_packet: Vec<u8> = encode_payment_packet(
        &contract,
        settled.total_amount_to_be_paid,
        &recipient,
    );
    let request_metadata: Vec<u8> = request_metadata_bytes(
        store.dst_gas_limit,
        dst_gas_price,
        store.ack_gas_limit,
        ack_gas_price,
        store.relayer_fee,
        AckType::AckOnBoth,
        false,
        &String::new(),
    );
    let mut stream: RouterPayStreamMetadata = match store.take_stream(stream_id) {
        Some(s) => s,
        None => {
            return Err(LedgerError::StreamNotFound);
        },
    };
    stream.is_sending = true;
    store.save_stream(stream_id, stream);
    store.temp_outbound_info = Some(
        OutboundInfo {
            stream_id,
            total_amount_to_be_paid: settled.total_amount_to_be_paid,
            paid_to_sec: settled.paid_to_sec,
        },
    );
    assert(store@.streams =~= old(store)@.streams.insert(
        stream_id,
        old(store)@.streams[stream_id].with_sending(true),
    ));
    let msg = OutMsg::CrosschainCall {
        reply_id: CREATE_OUTBOUND_REPLY_ID,
        reply_on: ReplyOn::Always,
        version: 1,
        route_amount: settled.total_amount_to_be_paid,
        route_recipient: recipient.clone(),
        dest_chain_id: dst_chain_id,
        request_metadata,
        request_packet,
    };
    let event = make_withdraw_event(EventKind::WithdrawOnOtherChain, stream_id, settled, recipient);
    Ok(Response::new().add_message(msg).add_event(event))
}

/// What a withdrawal does: a payout on the ledger's own chain where no
/// destination is given, or an empty one, or the ledger's own chain; the
/// dispatch of a payout to the destination otherwise.
pub open spec fn withdraw_salary_outcome(
    pre: LedgerView,
    deps: Deps,
    env: Env,
    stream_id: u64,
    max_amount: Option<u128>,
    recipient: Seq<char>,
    dst_chain_id: Option<Seq<char>>,
    sender: Seq<char>,
    src_chain_id: Seq<char>,
) -> Outcome {
    match dst_chain_id {
        Some(chain) => if chain.len() == 0 || chain == env.chain_id@ {
            withdraw_on_router_chain_outcome(
                pre,
                deps,
                env,
                stream_id,
                max_amount,
                recipient,
                sender,
                src_chain_id,
            )
        } else {
            withdraw_on_other_chain_outcome(
                pre,
                deps,
                env,
                stream_id,
                max_amount,
                recipient,
                chain,
                sender,
                src_chain_id,
            )
        },
        None => withdraw_on_router_chain_outcome(
            pre,
            deps,
            env,
            stream_id,
            max_amount,
            recipient,
            sender,
            src_chain_id,
        ),
    }
}

/// Withdraws what a stream owes, on the ledger's own chain or to another.
pub fn withdraw_salary(
    store: &mut Ledger,
    deps: &Deps,
    env: &Env,
    stream_id: u64,
    max_amount: Option<u128>,
    recipient: String,
    dst_chain_id: Option<String>,
    sender: String,
    src_chain_id: String,
) -> (res: Result<Response, LedgerError>)
    ensures
        agrees(
            withdraw_salary_outcome(
                old(store)@,
                *deps,
                *env,
                stream_id,
                max_amount,
                recipient@,
                optional_text_view(dst_chain_id),
                sender@,
                src_chain_id@,
            ),
            old(store)@,
            final(store)@,
            res,
        ),
{
    if let Some(chain_id) = dst_chain_id {
        if chain_id.as_str().is_empty() || chain_id == env.chain_id {
            return withdraw_on_router_chain(
                store,
                deps,
                env,
                stream_id,
                max_amount,
                recipient,
                sender,
                src_chain_id,
            );
        }
        return withdraw_on_other_chain(
            store,
            deps,
            env,
            stream_id,
            max_amount,
            recipient,
            chain_id,
            sender,
            src_chain_id,
        );
    }
    withdraw_on_router_chain(
        store,
        deps,
        env,
        stream_id,
        max_amount,
        recipient,
        sender,
        src_chain_id,
    )
}

} // verus!
