//! What the ledger does when the messaging layer reports how the dispatch of
//! a cross-chain request went.
//!
//! A failed dispatch is retryable. The roll-back of the attempt is the whole
//! effect of a call that succeeds, so that a host which discards the state of
//! a failed call keeps it; the failure itself is reported in the response.

use crate::errors::LedgerError;
use crate::ledger::{agrees, Ledger, LedgerView, Outcome};
use crate::msg::{Reply, SubMsgResult, CREATE_OUTBOUND_REPLY_ID};
use crate::response::{AttrKey, Event, EventKind, EventView, Response, ResponseView};
use crate::stream::{OutboundInfo, RouterPayStreamMetadata};
use vstd::prelude::*;
use vstd::string::*;

verus! {

/// What the ledger reports where the dispatch gave no data.
pub const NO_DATA_REASON: &'static str = "No_Binary_Data_Found";

/// What the roll-back of the current attempt does. It fails where there is
/// no current attempt or its stream does not exist. Otherwise the stream is
/// no longer marked as sending and the attempt is forgotten; the stream's
/// settled time stays as it is.
pub open spec fn handle_sub_message_failed_outcome(pre: LedgerView) -> Outcome {
    match pre.temp_outbound_info {
        None => Err(LedgerError::PendingRecordMissing),
        Some(record) => if !pre.streams.contains_key(record.stream_id) {
            Err(LedgerError::PendingStreamMissing)
        } else {
            Ok(
                (
                    LedgerView {
                        streams: pre.streams.insert(
                            record.stream_id,
                            pre.streams[record.stream_id].with_sending(false),
                        ),
                        temp_outbound_info: None,
                        ..pre
                    },
                    ResponseView::new(),
                ),
            )
        },
    }
}

/// Rolls back the current attempt after its dispatch failed.
pub fn handle_sub_message_failed(store: &mut Ledger) -> (res: Result<Response, LedgerError>)
    ensures
        agrees(handle_sub_message_failed_outcome(old(store)@), old(store)@, final(store)@, res),
{
    let record: OutboundInfo = match store.temp_outbound_info {
        Some(r) => r,
        None => {
            return Err(LedgerError::PendingRecordMissing);
        },
    };
    if store.load_stream(record.stream_id).is_none() {
        return Err(LedgerError::PendingStreamMissing);
    }
    let mut stream: RouterPayStreamMetadata = match store.take_stream(record.stream_id) {
        Some(s) => s,
        None => {
            return Err(LedgerError::PendingStreamMissing);
        },
    };
    stream.is_sending = false;
    store.save_stream(record.stream_id, stream);
    store.temp_outbound_info = None;
    assert(store@.streams =~= old(store)@.streams.insert(
        record.stream_id,
        old(store)@.streams[record.stream_id].with_sending(false),
    ));
    Ok(Response::new())
}

/// The response that reports a rolled-back attempt.
pub open spec fn rolled_back_response(stream_id: u64, reason: Seq<char>) -> ResponseView {
    ResponseView::new().event(
        EventView::new(EventKind::OutboundRolledBack).number(
            AttrKey::StreamId,
            stream_id as int,
        ).text(AttrKey::Reason, reason),
    )
}

/// What a roll-back with a report does: the roll-back, with a response that
/// names the stream and the reason.
pub open spec fn rolled_back_outcome(pre: LedgerView, reason: Seq<char>) -> Outcome {
    match handle_sub_message_failed_outcome(pre) {
        Err(e) => Err(e),
        Ok((state, _)) => Ok(
            (state, rolled_back_response(pre.temp_outbound_info->Some_0.stream_id, reason)),
        ),
    }
}

/// What a report on a dispatch does. A report under an unknown id fails
/// and names the id. A
/// dispatch that went through with a request identifier moves the current
/// attempt under that identifier, to await delivery; it fails where there is
/// no current attempt. A dispatch that failed, or that went through without
/// data, rolls the current attempt back.
pub open spec fn handle_reply_outcome(pre: LedgerView, msg: Reply) -> Outcome {
    if msg.id != CREATE_OUTBOUND_REPLY_ID {
        Err(LedgerError::UnknownReplyId(msg.id))
    } else {
        match msg.result {
            SubMsgResult::Dispatched { data: Some(answer) } => match pre.temp_outbound_info {
                None => Err(LedgerError::PendingRecordMissing),
                Some(record) => Ok(
                    (
                        LedgerView {
                            pending_outbound: pre.pending_outbound.insert(
                                answer.request_identifier,
                                record,
                            ),
                            temp_outbound_info: None,
                            ..pre
                        },
                        ResponseView::new(),
                    ),
                ),
            },
            SubMsgResult::Dispatched { data: None } => rolled_back_outcome(pre, NO_DATA_REASON@),
            SubMsgResult::Failed(reason) => rolled_back_outcome(pre, reason@),
        }
    }
}

/// Rolls back the current attempt and reports why.
fn roll_back(store: &mut Ledger, reason: String) -> (res: Result<Response, LedgerError>)
    ensures
        agrees(rolled_back_outcome(old(store)@, reason@), old(store)@, final(store)@, res),
{
    let stream_id: u64 = match store.temp_outbound_info {
        Some(r) => r.stream_id,
        None => {
            return Err(LedgerError::PendingRecordMissing);
        },
    };
    match handle_sub_message_failed(store) {
        Err(e) => {
            return Err(e);
        },
        Ok(_) => {},
    }
    let event = Event::new(EventKind::OutboundRolledBack).add_number(
        AttrKey::StreamId,
        stream_id as u128,
    ).add_text(AttrKey::Reason, reason);
    Ok(Response::new().add_event(event))
}

/// Takes in the report on the dispatch of a cross-chain request.
pub fn handle_reply(store: &mut Ledger, msg: Reply) -> (res: Result<Response, LedgerError>)
    ensures
        agrees(handle_reply_outcome(old(store)@, msg), old(store)@, final(store)@, res),
{
    if msg.id != CREATE_OUTBOUND_REPLY_ID {
        return Err(LedgerError::UnknownReplyId(msg.id));
    }
    match msg.result {
        SubMsgResult::Dispatched { data: Some(answer) } => {
            let record: OutboundInfo = match store.temp_outbound_info {
                Some(r) => r,
                None => {
                    return Err(LedgerError::PendingRecordMissing);
                },
            };
            store.save_pending(answer.request_identifier, record);
            store.temp_outbound_info = None;
            Ok(Response::new())
        },
        SubMsgResult::Dispatched { data: None } => roll_back(store, String::from_str(NO_DATA_REASON)),
        SubMsgResult::Failed(reason) => roll_back(store, reason),
    }
}

} // verus!
