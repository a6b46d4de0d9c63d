//! What an operation hands back besides the new state: the messages to send
//! and the events to record.

use crate::whitelist::pairs_view;
use vstd::prelude::*;
use vstd::string::*;

verus! {

/// The events that the ledger records.
#[derive(Clone, Copy, Debug, PartialEq, Eq, Structural)]
pub enum EventKind {
    EnrolledRemoteContract,
    MappedChainType,
    FundDeposited,
    StreamCreated,
    StreamCancelled,
    WithdrawOnRouterChain,
    WithdrawOnOtherChain,
    WhiteListedAddress,
    BlackListedAddress,
    CrossChainMetaUpdated,
    WithdrawFromContract,
    OutboundRolledBack,
    PayTransferFailed,
    PayTransferReceived,
}

/// The names under which attributes are recorded.
#[derive(Clone, Copy, Debug, PartialEq, Eq, Structural)]
pub enum AttrKey {
    Action,
    ChainId,
    ContractAddress,
    ChainType,
    DepositedBy,
    Denom,
    Amount,
    StreamId,
    WhitelistedAddresses,
    Recipient,
    CreatedAt,
    CreatedBy,
    StartTime,
    PayPerSec,
    PayPerMonth,
    Reason,
    CancelledBy,
    CancelledAt,
    PaidTo,
    AmountPaidToPayee,
    PaidFromSec,
    PaidToSec,
    Address,
    WhitelistedBy,
    BlacklistedBy,
    AckGasLimit,
    DstGasLimit,
    RelayerFee,
    RequestIdentifier,
    AmountPaid,
}

impl EventKind {
    /// The name of the event.
    pub open spec fn name_text(self) -> Seq<char> {
        match self {
            EventKind::EnrolledRemoteContract => "EnrolledRemoteContract"@,
            EventKind::MappedChainType => "MappedChainType"@,
            EventKind::FundDeposited => "FundDeposited"@,
            EventKind::StreamCreated => "StreamCreated"@,
            EventKind::StreamCancelled => "StreamCancelled"@,
            EventKind::WithdrawOnRouterChain => "WithdrawOnRouterChain"@,
            EventKind::WithdrawOnOtherChain => "WithdrawOnOtherChain"@,
            EventKind::WhiteListedAddress => "WhiteListedAddress"@,
            EventKind::BlackListedAddress => "BlackListedAddress"@,
            EventKind::CrossChainMetaUpdated => "CrossChainMetaUpdated"@,
            EventKind::WithdrawFromContract => "WithdrawFromContract"@,
            EventKind::OutboundRolledBack => "OutboundRolledBack"@,
            EventKind::PayTransferFailed => "PayTransferFailed"@,
            EventKind::PayTransferReceived => "PayTransferReceived"@,
        }
    }

    /// The name of the event.
    pub fn name(&self) -> (text: String)
        ensures
            text@ == self.name_text(),
    {
        let literal: &'static str = match self {
            EventKind::EnrolledRemoteContract => "EnrolledRemoteContract",
            EventKind::MappedChainType => "MappedChainType",
            EventKind::FundDeposited => "FundDeposited",
            EventKind::StreamCreated => "StreamCreated",
            EventKind::StreamCancelled => "StreamCancelled",
            EventKind::WithdrawOnRouterChain => "WithdrawOnRouterChain",
            EventKind::WithdrawOnOtherChain => "WithdrawOnOtherChain",
            EventKind::WhiteListedAddress => "WhiteListedAddress",
            EventKind::BlackListedAddress => "BlackListedAddress",
            EventKind::CrossChainMetaUpdated => "CrossChainMetaUpdated",
            EventKind::WithdrawFromContract => "WithdrawFromContract",
            EventKind::OutboundRolledBack => "OutboundRolledBack",
            EventKind::PayTransferFailed => "PayTransferFailed",
            EventKind::PayTransferReceived => "PayTransferReceived",
        };
        String::from_str(literal)
    }
}

impl AttrKey {
    /// The name of the attribute.
    pub open spec fn name_text(self) -> Seq<char> {
        match self {
            AttrKey::Action => "action"@,
            AttrKey::ChainId => "chain_id"@,
            AttrKey::ContractAddress => "contract_address"@,
            AttrKey::ChainType => "chain_type"@,
            AttrKey::DepositedBy => "deposited_by"@,
            AttrKey::Denom => "denom"@,
            AttrKey::Amount => "amount"@,
            AttrKey::StreamId => "stream_id"@,
            AttrKey::WhitelistedAddresses => "whitelisted_addresses"@,
            AttrKey::Recipient => "recipient"@,
            AttrKey::CreatedAt => "created_at"@,
            AttrKey::CreatedBy => "created_by"@,
            AttrKey::StartTime => "start_time"@,
            AttrKey::PayPerSec => "pay_per_sec"@,
            AttrKey::PayPerMonth => "pay_per_month"@,
            AttrKey::Reason => "reason"@,
            AttrKey::CancelledBy => "cancelled_by"@,
            AttrKey::CancelledAt => "cancelled_at"@,
            AttrKey::PaidTo => "paid_to"@,
            AttrKey::AmountPaidToPayee => "amount_paid_to_payee"@,
            AttrKey::PaidFromSec => "paid_from_sec"@,
            AttrKey::PaidToSec => "paid_to_sec"@,
            AttrKey::Address => "address"@,
            AttrKey::WhitelistedBy => "whitelisted_by"@,
            AttrKey::BlacklistedBy => "blacklisted_by"@,
            AttrKey::AckGasLimit => "ack_gas_limit"@,
            AttrKey::DstGasLimit => "dst_gas_limit"@,
            AttrKey::RelayerFee => "relayer_fee"@,
            AttrKey::RequestIdentifier => "request_identifier"@,
            AttrKey::AmountPaid => "amount_paid"@,
        }
    }

    /// The name of the attribute.
    pub fn name(&self) -> (text: String)
        ensures
            text@ == self.name_text(),
    {
        let literal: &'static str = match self {
            AttrKey::Action => "action",
            AttrKey::ChainId => "chain_id",
            AttrKey::ContractAddress => "contract_address",
            AttrKey::ChainType => "chain_type",
            AttrKey::DepositedBy => "deposited_by",
            AttrKey::Denom => "denom",
            AttrKey::Amount => "amount",
            AttrKey::StreamId => "stream_id",
            AttrKey::WhitelistedAddresses => "whitelisted_addresses",
            AttrKey::Recipient => "recipient",
            AttrKey::CreatedAt => "created_at",
            AttrKey::CreatedBy => "created_by",
            AttrKey::StartTime => "start_time",
            AttrKey::PayPerSec => "pay_per_sec",
            AttrKey::PayPerMonth => "pay_per_month",
            AttrKey::Reason => "reason",
            AttrKey::CancelledBy => "cancelled_by",
            AttrKey::CancelledAt => "cancelled_at",
            AttrKey::PaidTo => "paid_to",
            AttrKey::AmountPaidToPayee => "amount_paid_to_payee",
            AttrKey::PaidFromSec => "paid_from_sec",
            AttrKey::PaidToSec => "paid_to_sec",
            AttrKey::Address => "address",
            AttrKey::WhitelistedBy => "whitelisted_by",
            AttrKey::BlacklistedBy => "blacklisted_by",
            AttrKey::AckGasLimit => "ack_gas_limit",
            AttrKey::DstGasLimit => "dst_gas_limit",
            AttrKey::RelayerFee => "relayer_fee",
            AttrKey::RequestIdentifier => "request_identifier",
            AttrKey::AmountPaid => "amount_paid",
        };
        String::from_str(literal)
    }
}

/// The value of an attribute.
#[derive(Clone, Debug, PartialEq)]
pub enum AttrValue {
    /// A text.
    Text(String),
    /// A number, recorded in decimal.
    Number(u128),
    /// An optional list of (chain, address) pairs.
    Pairs(Option<Vec<(String, String)>>),
}

/// The value of an attribute, as mathematical values.
pub enum AttrValueView {
    Text(Seq<char>),
    Number(u128),
    Pairs(Option<Seq<(Seq<char>, Seq<char>)>>),
}

impl View for AttrValue {
    type V = AttrValueView;

    open spec fn view(&self) -> AttrValueView {
        match self {
            AttrValue::Text(text) => AttrValueView::Text(text@),
            AttrValue::Number(n) => AttrValueView::Number(*n),
            AttrValue::Pairs(pairs) => AttrValueView::Pairs(optional_pairs_view(*pairs)),
        }
    }
}

/// The pairs that an optional list of (chain, address) texts stands for.
pub open spec fn optional_pairs_view(value: Option<Vec<(String, String)>>) -> Option<
    Seq<(Seq<char>, Seq<char>)>,
> {
    match value {
        Some(pairs) => Some(pairs_view(pairs@)),
        None => None,
    }
}

/// A named value attached to an event or to a response.
#[derive(Clone, Debug, PartialEq)]
pub struct Attribute {
    pub key: AttrKey,
    pub value: AttrValue,
}

impl View for Attribute {
    type V = (AttrKey, AttrValueView);

    open spec fn view(&self) -> (AttrKey, AttrValueView) {
        (self.key, self.value@)
    }
}

/// An event with its attributes in order.
#[derive(Clone, Debug, PartialEq)]
pub struct Event {
    pub kind: EventKind,
    pub attributes: Vec<Attribute>,
}

/// An event, as mathematical values.
pub struct EventView {
    pub kind: EventKind,
    pub attributes: Seq<(AttrKey, AttrValueView)>,
}

impl View for Event {
    type V = EventView;

    open spec fn view(&self) -> EventView {
        EventView { kind: self.kind, attributes: self.attributes@.map_values(|a: Attribute| a@) }
    }
}

impl EventView {
    /// The event of `kind` without attributes.
    pub open spec fn new(kind: EventKind) -> EventView {
        EventView { kind, attributes: Seq::empty() }
    }

    /// This event with one more attribute that holds a text.
    pub open spec fn text(self, key: AttrKey, value: Seq<char>) -> EventView {
        EventView { attributes: self.attributes.push((key, AttrValueView::Text(value))), ..self }
    }

    /// This event with one more attribute that holds a number.
    pub open spec fn number(self, key: AttrKey, value: int) -> EventView {
        EventView {
            attributes: self.attributes.push((key, AttrValueView::Number(value as u128))),
            ..self
        }
    }

    /// This event with one more attribute that holds an optional list of pairs.
    pub open spec fn pairs(
        self,
        key: AttrKey,
        value: Option<Seq<(Seq<char>, Seq<char>)>>,
    ) -> EventView {
        EventView { attributes: self.attributes.push((key, AttrValueView::Pairs(value))), ..self }
    }
}

impl Event {
    /// The event of `kind` without attributes.
    pub fn new(kind: EventKind) -> (event: Event)
        ensures
            event@ == EventView::new(kind),
    {
        let event = Event { kind, attributes: Vec::new() };
        assert(event@.attributes =~= Seq::empty());
        event
    }

    /// Adds an attribute that holds a text.
    pub fn add_text(self, key: AttrKey, value: String) -> (event: Event)
        ensures
            event@ == self@.text(key, value@),
    {
        let mut event = self;
        event.attributes.push(Attribute { key, value: AttrValue::Text(value) });
        assert(event@.attributes =~= self@.text(key, value@).attributes);
        event
    }

    /// Adds an attribute that holds a number.
    pub fn add_number(self, key: AttrKey, value: u128) -> (event: Event)
        ensures
            event@ == self@.number(key, value as int),
    {
        let mut event = self;
        event.attributes.push(Attribute { key, value: AttrValue::Number(value) });
        assert(event@.attributes =~= self@.number(key, value as int).attributes);
        event
    }

    /// Adds an attribute that holds an optional list of pairs.
    pub fn add_pairs(self, key: AttrKey, value: Option<Vec<(String, String)>>) -> (event: Event)
        ensures
            event@ == self@.pairs(key, optional_pairs_view(value)),
    {
        let ghost expected = self@.pairs(key, optional_pairs_view(value));
        let mut event = self;
        event.attributes.push(Attribute { key, value: AttrValue::Pairs(value) });
        assert(event@.attributes =~= expected.attributes);
        event
    }
}

/// When the host reports back on a message that it was asked to send.
#[derive(Clone, Copy, Debug, PartialEq, Eq, Structural)]
pub enum ReplyOn {
    /// Whether the message succeeds or fails.
    Always,
    /// Only where the message fails.
    Error,
    /// Only where the message succeeds.
    Success,
    /// Never.
    Never,
}

/// A message that the ledger asks its host to send.
#[derive(Clone, Debug, PartialEq)]
pub enum OutMsg {
    /// Pay `amount` of the native coin to `to_address`.
    BankSend { to_address: String, amount: u128 },
    /// Dispatch a cross-chain request, and report back under `reply_id` how
    /// the dispatch went, as `reply_on` says.
    CrosschainCall {
        reply_id: u64,
        reply_on: ReplyOn,
        version: u64,
        route_amount: u128,
        route_recipient: String,
        dest_chain_id: String,
        request_metadata: Vec<u8>,
        request_packet: Vec<u8>,
    },
}

/// A message, as mathematical values.
pub enum OutMsgView {
    BankSend { to_address: Seq<char>, amount: u128 },
    CrosschainCall {
        reply_id: u64,
        reply_on: ReplyOn,
        version: u64,
        route_amount: u128,
        route_recipient: Seq<char>,
        dest_chain_id: Seq<char>,
        request_metadata: Seq<u8>,
        request_packet: Seq<u8>,
    },
}

impl View for OutMsg {
    type V = OutMsgView;

    open spec fn view(&self) -> OutMsgView {
        match self {
            OutMsg::BankSend { to_address, amount } => OutMsgView::BankSend {
                to_address: to_address@,
                amount: *amount,
            },
            OutMsg::CrosschainCall {
                reply_id,
                reply_on,
                version,
                route_amount,
                route_recipient,
                dest_chain_id,
                request_metadata,
                request_packet,
            } => OutMsgView::CrosschainCall {
                reply_id: *reply_id,
                reply_on: *reply_on,
                version: *version,
                route_amount: *route_amount,
                route_recipient: route_recipient@,
                dest_chain_id: dest_chain_id@,
                request_metadata: request_metadata@,
                request_packet: request_packet@,
            },
        }
    }
}

/// What a successful operation hands back.
#[derive(Clone, Debug, PartialEq)]
pub struct Response {
    pub attributes: Vec<Attribute>,
    pub messages: Vec<OutMsg>,
    pub events: Vec<Event>,
}

/// A response, as mathematical values.
pub struct ResponseView {
    pub attributes: Seq<(AttrKey, AttrValueView)>,
    pub messages: Seq<OutMsgView>,
    pub events: Seq<EventView>,
}

impl View for Response {
    type V = ResponseView;

    open spec fn view(&self) -> ResponseView {
        ResponseView {
            attributes: self.attributes@.map_values(|a: Attribute| a@),
            messages: self.messages@.map_values(|m: OutMsg| m@),
            events: self.events@.map_values(|e: Event| e@),
        }
    }
}

impl ResponseView {
    /// The response without attributes, messages or events.
    pub open spec fn new() -> ResponseView {
        ResponseView { attributes: Seq::empty(), messages: Seq::empty(), events: Seq::empty() }
    }

    /// This response with one more attribute that holds a text.
    pub open spec fn attribute(self, key: AttrKey, value: Seq<char>) -> ResponseView {
        ResponseView {
            attributes: self.attributes.push((key, AttrValueView::Text(value))),
            ..self
        }
    }

    /// This response with one more message.
    pub open spec fn message(self, msg: OutMsgView) -> ResponseView {
        ResponseView { messages: self.messages.push(msg), ..self }
    }

    /// This response with one more event.
    pub open spec fn event(self, event: EventView) -> ResponseView {
        ResponseView { events: self.events.push(event), ..self }
    }
}

impl Response {
    /// The response without attributes, messages or events.
    pub fn new() -> (response: Response)
        ensures
            response@ == ResponseView::new(),
    {
        let response = Response { attributes: Vec::new(), messages: Vec::new(), events: Vec::new() };
        assert(response@.attributes =~= Seq::empty());
        assert(response@.messages =~= Seq::empty());
        assert(response@.events =~= Seq::empty());
        response
    }

    /// Adds an attribute that holds a text.
    pub fn add_attribute(self, key: AttrKey, value: String) -> (response: Response)
        ensures
            response@ == self@.attribute(key, value@),
    {
        let mut response = self;
        response.attributes.push(Attribute { key, value: AttrValue::Text(value) });
        assert(response@.attributes =~= self@.attribute(key, value@).attributes);
        response
    }

    /// Adds a message.
    pub fn add_message(self, msg: OutMsg) -> (response: Response)
        ensures
            response@ == self@.message(msg@),
    {
        let mut response = self;
        response.messages.push(msg);
        assert(response@.messages =~= self@.message(msg@).messages);
        response
    }

    /// Adds an event.
    pub fn add_event(self, event: Event) -> (response: Response)
        ensures
            response@ == self@.event(event@),
    {
        let mut response = self;
        response.events.push(event);
        assert(response@.events =~= self@.event(event@).events);
        response
    }
}

} // verus!
