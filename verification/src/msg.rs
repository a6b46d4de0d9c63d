//! The requests that the ledger accepts and the answers to its queries.

use crate::host::Coin;
use crate::stream::{CrossChainMetadata, RouterPayStreamMetadata};
use vstd::prelude::*;

verus! {

/// The id under which the dispatch of a cross-chain request reports back.
pub const CREATE_OUTBOUND_REPLY_ID: u64 = 1;

/// The first request: who administers the ledger, and the settings of
/// cross-chain requests.
#[derive(Clone, Debug, PartialEq)]
pub struct InstantiateMsg {
    pub owner: String,
    pub dst_gas_limit: u64,
    pub ack_gas_limit: u64,
    pub relayer_fee: u128,
}

/// The requests that change the ledger.
#[derive(Clone, Debug, PartialEq)]
pub enum ExecuteMsg {
    CreateStream {
        whitelisted_addresses: Option<Vec<(String, String)>>,
        start_time: u64,
        pay_per_month: u128,
        recipient: String,
        remarks: Option<String>,
    },
    CancelStream { stream_id: u64, remarks: Option<String> },
    DepositRoute {  },
    WithdrawSalary {
        stream_id: u64,
        recipient: String,
        dst_chain_id: Option<String>,
        max_amount: Option<u128>,
    },
    EnrollRemoteContract { chain_id: String, remote_contract: String },
    MapChainType { chain_id: String, chain_type: u64 },
    WithdrawFunds { recipient: String, amount: u128 },
    UpdateWhiteListAddress { stream_id: u64, address: String, chain_id: String, to: bool },
    UpdateCrossChainMetadata {
        dst_gas_limit: Option<u64>,
        ack_gas_limit: Option<u64>,
        relayer_fee: Option<u128>,
    },
}

/// The request to move to a new version.
#[derive(Clone, Copy, Debug, PartialEq, Eq, Structural)]
pub struct MigrateMsg {
}

/// The questions that the ledger answers.
#[derive(Clone, Debug, PartialEq)]
pub enum QueryMsg {
    GetContractVersion {  },
    GetRemoteContract { chain_id: String },
    GetRouterPayMetadata { stream_id: u64 },
    GetOwner {  },
    GetStreams { from: u64, to: Option<u64> },
    GetStreamWhiteListAddress { stream_id: u64 },
    GetUserStreamIds { address: String },
    GetUserStreamsInfo { address: String },
    IsWhiteListed { stream_id: u64, chain_id: String, address: String },
    GetCrossChainMetadata {  },
    GetAccumulatedAmount { stream_id: u64 },
}

/// The answers to the questions of [`QueryMsg`].
#[derive(Clone, Debug, PartialEq)]
pub enum QueryResponse {
    ContractVersion { contract: String, version: String },
    RemoteContract(String),
    RouterPayMetadata(RouterPayStreamMetadata),
    Owner(String),
    Streams(Vec<RouterPayStreamMetadata>),
    StreamWhiteListAddress(Vec<(String, String)>),
    UserStreamIds(Vec<u64>),
    UserStreamsInfo(Vec<RouterPayStreamMetadata>),
    IsWhiteListed(bool),
    CrossChainMetadata(CrossChainMetadata),
    AccumulatedAmount(u128),
}

/// What the messaging layer delivers to the ledger.
#[derive(Clone, Debug, PartialEq)]
pub enum SudoMsg {
    /// A request that arrived from another chain.
    HandleIReceive {
        request_sender: String,
        src_chain_id: String,
        request_identifier: u64,
        payload: Vec<u8>,
    },
    /// The acknowledgement of a request that the ledger sent.
    HandleIAck {
        request_identifier: u64,
        exec_flag: bool,
        exec_data: Vec<u8>,
        refund_amount: Coin,
    },
}

/// What the messaging layer answers when a request was dispatched.
#[derive(Clone, Debug, PartialEq)]
pub struct CrosschainRequestResponse {
    pub request_identifier: u64,
    pub fee_deducted: Coin,
}

/// How the dispatch of a message went.
#[derive(Clone, Debug, PartialEq)]
pub enum SubMsgResult {
    /// It was dispatched; the data, where the answer carried any that could
    /// be read.
    Dispatched { data: Option<CrosschainRequestResponse> },
    /// It failed, for the reason given.
    Failed(String),
}

/// The report on a message that the ledger asked to be sent.
#[derive(Clone, Debug, PartialEq)]
pub struct Reply {
    pub id: u64,
    pub result: SubMsgResult,
}

} // verus!
