//! A stream and the record of a cross-chain withdrawal in flight.

use crate::whitelist::Whitelist;
use vstd::prelude::*;

verus! {

/// A recurring payment to a recipient at a fixed rate per second.
#[derive(Clone, Debug, PartialEq)]
pub struct RouterPayStreamMetadata {
    /// The account that administers the stream and owns what it pays.
    pub recipient_owner: String,
    /// Seconds of the block in which the stream was created.
    pub created_at: u64,
    /// Seconds from which the stream accrues.
    pub start_time: u64,
    /// The rate per second.
    pub pay_per_sec: u128,
    /// A free-text memo; empty where none was given.
    pub reason: String,
    /// The time up to which the stream is settled.
    pub last_withdrawn_at: u64,
    /// Whether a cross-chain withdrawal of this stream is in flight.
    pub is_sending: bool,
    /// The parties that may trigger a withdrawal.
    pub whitelisted_addresses: Whitelist,
}

/// What a stream holds, as mathematical values.
pub struct StreamView {
    pub recipient_owner: Seq<char>,
    pub created_at: u64,
    pub start_time: u64,
    pub pay_per_sec: u128,
    pub reason: Seq<char>,
    pub last_withdrawn_at: u64,
    pub is_sending: bool,
    pub whitelisted_addresses: Seq<(Seq<char>, Seq<char>)>,
}

impl View for RouterPayStreamMetadata {
    type V = StreamView;

    open spec fn view(&self) -> StreamView {
        StreamView {
            recipient_owner: self.recipient_owner@,
            created_at: self.created_at,
            start_time: self.start_time,
            pay_per_sec: self.pay_per_sec,
            reason: self.reason@,
            last_withdrawn_at: self.last_withdrawn_at,
            is_sending: self.is_sending,
            whitelisted_addresses: self.whitelisted_addresses@,
        }
    }
}

impl StreamView {
    /// Whether the stream's own fields are consistent: a positive rate, a
    /// settled time not before the start, and no party listed twice.
    pub open spec fn wf(self) -> bool {
        &&& self.pay_per_sec > 0
        &&& self.start_time <= self.last_withdrawn_at
        &&& self.whitelisted_addresses.no_duplicates()
    }

    /// Whether `sender`, calling from `chain_id`, may withdraw: it is
    /// whitelisted there, or it is the stream's owner.
    pub open spec fn may_withdraw(self, chain_id: Seq<char>, sender: Seq<char>) -> bool {
        self.whitelisted_addresses.contains((chain_id, sender)) || self.recipient_owner == sender
    }

    /// This stream with its in-flight flag set to `flag`.
    pub open spec fn with_sending(self, flag: bool) -> StreamView {
        StreamView { is_sending: flag, ..self }
    }

    /// This stream settled up to `time`.
    pub open spec fn settled_to(self, time: u64) -> StreamView {
        StreamView { last_withdrawn_at: time, ..self }
    }

    /// This stream with another whitelist.
    pub open spec fn with_whitelist(self, list: Seq<(Seq<char>, Seq<char>)>) -> StreamView {
        StreamView { whitelisted_addresses: list, ..self }
    }
}

impl RouterPayStreamMetadata {
    /// A copy of this stream.
    pub fn duplicate(&self) -> (copy: Self)
        ensures
            copy@ == self@,
    {
        RouterPayStreamMetadata {
            recipient_owner: self.recipient_owner.clone(),
            created_at: self.created_at,
            start_time: self.start_time,
            pay_per_sec: self.pay_per_sec,
            reason: self.reason.clone(),
            last_withdrawn_at: self.last_withdrawn_at,
            is_sending: self.is_sending,
            whitelisted_addresses: self.whitelisted_addresses.duplicate(),
        }
    }
}

/// The settings that every cross-chain request carries.
#[derive(Clone, Copy, Debug, PartialEq, Eq, Structural)]
pub struct CrossChainMetadata {
    pub relayer_fee: u128,
    pub ack_gas_limit: u64,
    pub dst_gas_limit: u64,
}

/// One cross-chain withdrawal in flight: the stream, the amount sent, and the
/// time up to which the stream is settled once delivery is confirmed.
#[derive(Clone, Copy, Debug, PartialEq, Eq, Structural)]
pub struct OutboundInfo {
    pub stream_id: u64,
    pub total_amount_to_be_paid: u128,
    pub paid_to_sec: u64,
}

} // verus!
