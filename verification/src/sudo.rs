//! What the messaging layer delivers: withdrawal requests that arrive from
//! other chains, and acknowledgements of the requests that the ledger sent.

use crate::abi::{
    abi_decode, abi_decoding, address_from_bytes, address_text, check_frame, decoded_view,
    frame_ok, lowercase, lowercase_of, AbiKind, AbiToken, AbiTokenView,
};
use crate::errors::LedgerError;
use crate::host::{Coin, Deps, Env};
use crate::ledger::{agrees, Ledger, LedgerView, Outcome};
use crate::msg::SudoMsg;
use crate::response::{AttrKey, Event, EventKind, EventView, Response, ResponseView};
use crate::stream::{OutboundInfo, RouterPayStreamMetadata};
use crate::withdrawal::{withdraw_salary, withdraw_salary_outcome};
use vstd::prelude::*;

verus! {

/// A withdrawal request as it arrives from another chain.
#[derive(Clone, Debug, PartialEq)]
pub struct WithdrawRequest {
    /// The chain on which the payout is wanted.
    pub dst_chain_id: String,
    /// The address of the requester, in the bytes of its chain.
    pub sender: Vec<u8>,
    /// The account that is to be paid.
    pub recipient: String,
    /// The stream to withdraw from.
    pub stream_id: u64,
    /// The cap on the payout; zero for none.
    pub max_amount: u128,
}

/// A withdrawal request, as mathematical values.
pub struct WithdrawRequestView {
    pub dst_chain_id: Seq<char>,
    pub sender: Seq<u8>,
    pub recipient: Seq<char>,
    pub stream_id: u64,
    pub max_amount: u128,
}

impl View for WithdrawRequest {
    type V = WithdrawRequestView;

    open spec fn view(&self) -> WithdrawRequestView {
        WithdrawRequestView {
            dst_chain_id: self.dst_chain_id@,
            sender: self.sender@,
            recipient: self.recipient@,
            stream_id: self.stream_id,
            max_amount: self.max_amount,
        }
    }
}

/// The kinds of value that a withdrawal request is made of: the destination
/// chain, the sender's address, the recipient, the stream id, the cap.
pub open spec fn request_kinds() -> Seq<AbiKind> {
    seq![AbiKind::Text, AbiKind::Bytes, AbiKind::Text, AbiKind::Uint(64), AbiKind::Uint(256)]
}

/// The text that a decoded value holds, if it is a text.
pub open spec fn text_of(token: Option<AbiTokenView>) -> Option<Seq<char>> {
    match token {
        Some(AbiTokenView::Text(text)) => Some(text),
        _ => None,
    }
}

/// The byte string that a decoded value holds, if it is a byte string.
pub open spec fn bytes_of(token: Option<AbiTokenView>) -> Option<Seq<u8>> {
    match token {
        Some(AbiTokenView::Bytes(bytes)) => Some(bytes),
        _ => None,
    }
}

/// The four words that a decoded value holds, if it is an integer.
pub open spec fn words_of(token: Option<AbiTokenView>) -> Option<Seq<u64>> {
    match token {
        Some(AbiTokenView::Uint(words)) => if words.len() == 4 {
            Some(words)
        } else {
            None
        },
        _ => None,
    }
}

/// The request that five decoded values stand for: `None` where they are
/// not a text, a byte string, a text and two integers, where the stream id
/// does not fit 64 bits, or where the cap does not fit 128 bits.
pub open spec fn request_of_tokens(tokens: Seq<Option<AbiTokenView>>) -> Option<
    WithdrawRequestView,
> {
    if tokens.len() == 5 && text_of(tokens[0]) is Some && bytes_of(tokens[1]) is Some && text_of(
        tokens[2],
    ) is Some && words_of(tokens[3]) is Some && words_of(tokens[4]) is Some {
        let id = words_of(tokens[3])->Some_0;
        let cap = words_of(tokens[4])->Some_0;
        if id[1] == 0 && id[2] == 0 && id[3] == 0 && cap[2] == 0 && cap[3] == 0 {
            Some(
                WithdrawRequestView {
                    dst_chain_id: text_of(tokens[0])->Some_0,
                    sender: bytes_of(tokens[1])->Some_0,
                    recipient: text_of(tokens[2])->Some_0,
                    stream_id: id[0],
                    max_amount: (cap[0] + cap[1] * 0x1_0000_0000_0000_0000) as u128,
                },
            )
        } else {
            None
        }
    } else {
        None
    }
}

/// The request that a payload stands for: `None` where its values are not
/// framed within it, or where the decoded values are no request.
pub open spec fn decoded_request(payload: Seq<u8>) -> Option<WithdrawRequestView> {
    if !frame_ok(request_kinds(), payload) {
        None
    } else {
        request_of_tokens(abi_decoding(request_kinds(), payload))
    }
}

/// Reads a withdrawal request off five decoded values.
pub fn request_from_tokens(tokens: Vec<Option<AbiToken>>) -> (res: Result<
    WithdrawRequest,
    LedgerError,
>)
    ensures
        match request_of_tokens(decoded_view(tokens@)) {
            Some(request) => res is Ok && res->Ok_0@ == request,
            None => res == Err::<WithdrawRequest, LedgerError>(LedgerError::DecodingFailure),
        },
{
    let ghost views = decoded_view(tokens@);
    let mut tokens = tokens;
    if tokens.len() != 5 {
        return Err(LedgerError::DecodingFailure);
    }
    let cap = tokens.pop();
    let id = tokens.pop();
    let recipient = tokens.pop();
    let sender = tokens.pop();
    let chain = tokens.pop();
    assert(crate::abi::decoded_token_view(cap->Some_0) == views[4]);
    assert(crate::abi::decoded_token_view(id->Some_0) == views[3]);
    assert(crate::abi::decoded_token_view(recipient->Some_0) == views[2]);
    assert(crate::abi::decoded_token_view(sender->Some_0) == views[1]);
    assert(crate::abi::decoded_token_view(chain->Some_0) == views[0]);
    match (chain, sender, recipient, id, cap) {
        (
            Some(Some(AbiToken::Text(dst_chain_id))),
            Some(Some(AbiToken::Bytes(sender))),
            Some(Some(AbiToken::Text(recipient))),
            Some(Some(AbiToken::Uint(id_words))),
            Some(Some(AbiToken::Uint(cap_words))),
        ) => {
            if id_words[1] != 0 || id_words[2] != 0 || id_words[3] != 0 || cap_words[2] != 0
                || cap_words[3] != 0 {
                return Err(LedgerError::DecodingFailure);
            }
            let low: u128 = cap_words[0] as u128;
            let high: u128 = cap_words[1] as u128;
            Ok(
                WithdrawRequest {
                    dst_chain_id,
                    sender,
                    recipient,
                    stream_id: id_words[0],
                    max_amount: low + high * 0x1_0000_0000_0000_0000,
                },
            )
        },
        _ => Err(LedgerError::DecodingFailure),
    }
}

/// Decodes the payload of a withdrawal request.
pub fn decode_withdraw_request(payload: &Vec<u8>) -> (res: Result<WithdrawRequest, LedgerError>)
    ensures
        match decoded_request(payload@) {
            Some(request) => res is Ok && res->Ok_0@ == request,
            None => res == Err::<WithdrawRequest, LedgerError>(LedgerError::DecodingFailure),
        },
{
    let mut kinds: Vec<AbiKind> = Vec::new();
    kinds.push(AbiKind::Text);
    kinds.push(AbiKind::Bytes);
    kinds.push(AbiKind::Text);
    kinds.push(AbiKind::Uint(64));
    kinds.push(AbiKind::Uint(256));
    assert(kinds@ =~= request_kinds());
    if !check_frame(&kinds, payload) {
        return Err(LedgerError::DecodingFailure);
    }
    match abi_decode(&kinds, payload) {
        Ok(tokens) => request_from_tokens(tokens),
        Err(_) => Err(LedgerError::DecodingFailure),
    }
}

/// What a withdrawal request from another chain does. It fails, in this
/// order, where the sender is not the remote contract registered for the
/// chain it comes from, compared in lower case; the payload is no request;
/// no address encoding is registered for that chain; or the sender's bytes
/// are no address of that encoding. Otherwise it does what a withdrawal
/// does for the decoded sender on that chain, with the recipient in lower
/// case and the request's cap and destination.
pub open spec fn handle_sudo_request_outcome(
    pre: LedgerView,
    deps: Deps,
    env: Env,
    request_sender: Seq<char>,
    src_chain_id: Seq<char>,
    payload: Seq<u8>,
) -> Outcome {
    if !pre.remote_contracts.contains_key(src_chain_id) || pre.remote_contracts[src_chain_id]
        != lowercase_of(request_sender) {
        Err(LedgerError::InvalidCaller)
    } else if decoded_request(payload) is None {
        Err(LedgerError::DecodingFailure)
    } else if !pre.chain_types.contains_key(src_chain_id) {
        Err(LedgerError::ChainTypeUnknown)
    } else {
        let request = decoded_request(payload)->Some_0;
        match address_text(request.sender, pre.chain_types[src_chain_id]) {
            None => Err(LedgerError::DecodingFailure),
            Some(sender) => withdraw_salary_outcome(
                pre,
                deps,
                env,
                request.stream_id,
                Some(request.max_amount),
                lowercase_of(request.recipient),
                Some(request.dst_chain_id),
                sender,
                src_chain_id,
            ),
        }
    }
}

/// Takes in a withdrawal request that arrived from another chain.
pub fn handle_sudo_request(
    store: &mut Ledger,
    deps: &Deps,
    env: &Env,
    request_sender: String,
    src_chain_id: String,
    request_identifier: u64,
    payload: Vec<u8>,
) -> (res: Result<Response, LedgerError>)
    ensures
        agrees(
            handle_sudo_request_outcome(
                old(store)@,
                *deps,
                *env,
                request_sender@,
                src_chain_id@,
                payload@,
            ),
            old(store)@,
            final(store)@,
            res,
        ),
{
    let lower_sender: String = lowercase(&request_sender);
    match store.load_remote_contract(&src_chain_id) {
        None => {
            return Err(LedgerError::InvalidCaller);
        },
        Some(contract) => {
            if *contract != lower_sender {
                return Err(LedgerError::InvalidCaller);
            }
        },
    }
    let request: WithdrawRequest = match decode_withdraw_request(&payload) {
        Ok(r) => r,
        Err(e) => {
            return Err(e);
        },
    };
    let chain_type: u64 = match store.load_chain_type(&src_chain_id) {
        Some(t) => t,
        None => {
            return Err(LedgerError::ChainTypeUnknown);
        },
    };
    let sender: String = match address_from_bytes(&request.sender, chain_type) {
        Ok(text) => text,
        Err(_) => {
            return Err(LedgerError::DecodingFailure);
        },
    };
    let recipient: String = lowercase(&request.recipient);
    withdraw_salary(
        store,
        deps,
        env,
        request.stream_id,
        Some(request.max_amount),
        recipient,
        Some(request.dst_chain_id),
        sender,
        src_chain_id,
    )
}

/// The event that records an acknowledgement.
pub open spec fn ack_event(exec_flag: bool, request_identifier: u64, record: OutboundInfo) -> EventView {
    if exec_flag {
        EventView::new(EventKind::PayTransferReceived).number(
            AttrKey::RequestIdentifier,
            request_identifier as int,
        ).number(AttrKey::StreamId, record.stream_id as int).number(
            AttrKey::AmountPaid,
            record.total_amount_to_be_paid as int,
        )
    } else {
        EventView::new(EventKind::PayTransferFailed).number(
            AttrKey::RequestIdentifier,
            request_identifier as int,
        ).number(AttrKey::StreamId, record.stream_id as int)
    }
}

/// What an acknowledgement does. It fails where no withdrawal awaits
/// delivery under the identifier, or where its stream does not exist.
/// Otherwise the record is forgotten and the stream is no longer marked as
/// sending; where the delivery succeeded the stream is settled up to the
/// time that the record proposed, and where it failed the settled time
/// stays as it is.
pub open spec fn handle_sudo_ack_outcome(
    pre: LedgerView,
    exec_flag: bool,
    request_identifier: u64,
) -> Outcome {
    if !pre.pending_outbound.contains_key(request_identifier) {
        Err(LedgerError::PendingRecordMissing)
    } else {
        let record = pre.pending_outbound[request_identifier];
        if !pre.streams.contains_key(record.stream_id) {
            Err(LedgerError::PendingStreamMissing)
        } else {
            let idle = pre.streams[record.stream_id].with_sending(false);
            Ok(
                (
                    LedgerView {
                        pending_outbound: pre.pending_outbound.remove(request_identifier),
                        streams: pre.streams.insert(
                            record.stream_id,
                            if exec_flag {
                                idle.settled_to(record.paid_to_sec)
                            } else {
                                idle
                            },
                        ),
                        ..pre
                    },
                    ResponseView::new().event(ack_event(exec_flag, request_identifier, record)),
                ),
            )
        }
    }
}

/// Takes in the acknowledgement of a cross-chain withdrawal.
pub fn handle_sudo_ack(
    store: &mut Ledger,
    exec_flag: bool,
    request_identifier: u64,
    refund_amount: Coin,
) -> (res: Result<Response, LedgerError>)
    ensures
        agrees(
            handle_sudo_ack_outcome(old(store)@, exec_flag, request_identifier),
            old(store)@,
            final(store)@,
            res,
        ),
{
    let record: OutboundInfo = match store.load_pending(request_identifier) {
        Some(r) => r,
        None => {
            return Err(LedgerError::PendingRecordMissing);
        },
    };
    if store.load_stream(record.stream_id).is_none() {
        return Err(LedgerError::PendingStreamMissing);
    }
    let mut stream: RouterPayStreamMetadata = match store.take_stream(record.stream_id) {
        Some(s) => s,
        None => {
            return Err(LedgerError::PendingStreamMissing);
        },
    };
    store.remove_pending(request_identifier);
    stream.is_sending = false;
    let event;
    if exec_flag {
        stream.last_withdrawn_at = record.paid_to_sec;
        event = Event::new(EventKind::PayTransferReceived).add_number(
            AttrKey::RequestIdentifier,
            request_identifier as u128,
        ).add_number(AttrKey::StreamId, record.stream_id as u128).add_number(
            AttrKey::AmountPaid,
            record.total_amount_to_be_paid,
        );
    } else {
        event = Event::new(EventKind::PayTransferFailed).add_number(
            AttrKey::RequestIdentifier,
            request_identifier as u128,
        ).add_number(AttrKey::StreamId, record.stream_id as u128);
    }
    store.save_stream(record.stream_id, stream);
    assert(store@.streams =~= handle_sudo_ack_outcome(
        old(store)@,
        exec_flag,
        request_identifier,
    )->Ok_0.0.streams);
    Ok(Response::new().add_event(event))
}

/// What a delivery of the messaging layer does: what the request or the
/// acknowledgement that it carries does.
pub open spec fn handle_sudo_outcome(pre: LedgerView, deps: Deps, env: Env, msg: SudoMsg) -> Outcome {
    match msg {
        SudoMsg::HandleIReceive { request_sender, src_chain_id, request_identifier, payload } =>
            handle_sudo_request_outcome(pre, deps, env, request_sender@, src_chain_id@, payload@),
        SudoMsg::HandleIAck { request_identifier, exec_flag, exec_data, refund_amount } =>
            handle_sudo_ack_outcome(pre, exec_flag, request_identifier),
    }
}

/// Takes in what the messaging layer delivers.
pub fn handle_sudo(store: &mut Ledger, deps: &Deps, env: &Env, msg: SudoMsg) -> (res: Result<
    Response,
    LedgerError,
>)
    ensures
        agrees(handle_sudo_outcome(old(store)@, *deps, *env, msg), old(store)@, final(store)@, res),
{
    match msg {
        SudoMsg::HandleIReceive { request_sender, src_chain_id, request_identifier, payload } =>
            handle_sudo_request(
            store,
            deps,
            env,
            request_sender,
            src_chain_id,
            request_identifier,
            payload,
        ),
        SudoMsg::HandleIAck { request_identifier, exec_flag, exec_data, refund_amount } =>
            handle_sudo_ack(store, exec_flag, request_identifier, refund_amount),
    }
}

} // verus!
