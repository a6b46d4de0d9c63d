//! The stored state of the ledger, and the loads and saves that the
//! operations are built from.

use crate::stream::{OutboundInfo, RouterPayStreamMetadata, StreamView};
use crate::strmap::StrMap;
use std::collections::HashMap;
use vstd::prelude::*;

verus! {

broadcast use vstd::std_specs::hash::group_hash_axioms;

/// The type and version of the contract that wrote the state.
#[derive(Clone, Debug, PartialEq)]
pub struct ContractVersion {
    pub contract: String,
    pub version: String,
}

/// Everything the ledger keeps between calls.
#[derive(Clone, Debug, PartialEq)]
pub struct Ledger {
    /// The administrator.
    pub owner: Option<String>,
    /// For each account, the ids of the streams it owns as recipient, each
    /// once, in the order of their creation. They are kept as a list and not
    /// as a hash set, because the order in which a hash set is walked is not
    /// a function of what it holds, and the queries hand the ids out.
    pub user_streams: StrMap<Vec<u64>>,
    /// The id that the next stream gets.
    pub stream_indexer: u64,
    /// The streams by id.
    pub streams: HashMap<u64, RouterPayStreamMetadata>,
    /// For each chain, the counterpart contract deployed there, in lower case.
    pub remote_contracts: StrMap<String>,
    /// For each chain, the scheme by which its addresses are encoded.
    pub chain_types: StrMap<u64>,
    /// The cross-chain withdrawal that was dispatched and not yet answered.
    pub temp_outbound_info: Option<OutboundInfo>,
    /// The cross-chain withdrawals awaiting delivery, by request identifier.
    pub pending_outbound: HashMap<u64, OutboundInfo>,
    /// Gas allowed for the execution on the destination chain.
    pub dst_gas_limit: u64,
    /// Gas allowed for handling the acknowledgement.
    pub ack_gas_limit: u64,
    /// The fee offered to the relayer.
    pub relayer_fee: u128,
    /// The contract type and version, once set.
    pub contract_version: Option<ContractVersion>,
}

/// The stored state, as mathematical values.
pub struct LedgerView {
    pub owner: Option<Seq<char>>,
    pub user_streams: Map<Seq<char>, Seq<u64>>,
    pub stream_indexer: u64,
    pub streams: Map<u64, StreamView>,
    pub remote_contracts: Map<Seq<char>, Seq<char>>,
    pub chain_types: Map<Seq<char>, u64>,
    pub temp_outbound_info: Option<OutboundInfo>,
    pub pending_outbound: Map<u64, OutboundInfo>,
    pub dst_gas_limit: u64,
    pub ack_gas_limit: u64,
    pub relayer_fee: u128,
    pub contract_version: Option<(Seq<char>, Seq<char>)>,
}

/// The views of the streams of a map.
pub open spec fn streams_view(m: Map<u64, RouterPayStreamMetadata>) -> Map<u64, StreamView> {
    m.map_values(|s: RouterPayStreamMetadata| s@)
}

/// The views of the texts of a map.
pub open spec fn texts_view(m: Map<Seq<char>, String>) -> Map<Seq<char>, Seq<char>> {
    m.map_values(|s: String| s@)
}

/// The views of the id lists of a map.
pub open spec fn id_lists_view(m: Map<Seq<char>, Vec<u64>>) -> Map<Seq<char>, Seq<u64>> {
    m.map_values(|v: Vec<u64>| v@)
}

/// The view of an optional text.
pub open spec fn optional_text_view(text: Option<String>) -> Option<Seq<char>> {
    match text {
        Some(t) => Some(t@),
        None => None,
    }
}

/// The view of an optional contract version.
pub open spec fn optional_version_view(version: Option<ContractVersion>) -> Option<
    (Seq<char>, Seq<char>),
> {
    match version {
        Some(v) => Some((v.contract@, v.version@)),
        None => None,
    }
}

impl View for Ledger {
    type V = LedgerView;

    open spec fn view(&self) -> LedgerView {
        LedgerView {
            owner: optional_text_view(self.owner),
            user_streams: id_lists_view(self.user_streams@),
            stream_indexer: self.stream_indexer,
            streams: streams_view(self.streams@),
            remote_contracts: texts_view(self.remote_contracts@),
            chain_types: self.chain_types@,
            temp_outbound_info: self.temp_outbound_info,
            pending_outbound: self.pending_outbound@,
            dst_gas_limit: self.dst_gas_limit,
            ack_gas_limit: self.ack_gas_limit,
            relayer_fee: self.relayer_fee,
            contract_version: optional_version_view(self.contract_version),
        }
    }
}

impl LedgerView {
    /// The state before anything was stored.
    pub open spec fn empty() -> LedgerView {
        LedgerView {
            owner: None,
            user_streams: Map::empty(),
            stream_indexer: 0,
            streams: Map::empty(),
            remote_contracts: Map::empty(),
            chain_types: Map::empty(),
            temp_outbound_info: None,
            pending_outbound: Map::empty(),
            dst_gas_limit: 0,
            ack_gas_limit: 0,
            relayer_fee: 0,
            contract_version: None,
        }
    }

    /// Whether a record of a withdrawal in flight agrees with the streams:
    /// its stream id was handed out, and if that stream still exists, it is
    /// marked as sending and is not settled beyond what the record proposes.
    pub open spec fn record_consistent(self, record: OutboundInfo) -> bool {
        &&& record.stream_id < self.stream_indexer
        &&& self.streams.contains_key(record.stream_id) ==> {
            &&& self.streams[record.stream_id].is_sending
            &&& self.streams[record.stream_id].last_withdrawn_at <= record.paid_to_sec
        }
    }

    /// Whether at most one withdrawal is in flight for every stream: no two
    /// records, dispatched or awaiting delivery, name the same stream.
    pub open spec fn one_attempt_per_stream(self) -> bool {
        &&& forall|a: u64, b: u64|
            #![trigger self.pending_outbound[a], self.pending_outbound[b]]
            self.pending_outbound.contains_key(a) && self.pending_outbound.contains_key(b) && a != b
                ==> self.pending_outbound[a].stream_id != self.pending_outbound[b].stream_id
        &&& forall|a: u64|
            #![trigger self.pending_outbound[a]]
            self.pending_outbound.contains_key(a) && self.temp_outbound_info is Some
                ==> self.pending_outbound[a].stream_id != self.temp_outbound_info->Some_0.stream_id
    }

    /// Whether the user index agrees with the streams: every stream is
    /// listed under its owner, every listed id is the id of a stream of that
    /// owner, and no id is listed twice.
    pub open spec fn index_consistent(self) -> bool {
        &&& forall|id: u64| #[trigger]
            self.streams.contains_key(id) ==> self.user_streams.contains_key(
                self.streams[id].recipient_owner,
            ) && self.user_streams[self.streams[id].recipient_owner].contains(id)
        &&& forall|user: Seq<char>, i: int|
            self.user_streams.contains_key(user) && 0 <= i < self.user_streams[user].len() ==> {
                &&& self.streams.contains_key(#[trigger] self.user_streams[user][i])
                &&& self.streams[self.user_streams[user][i]].recipient_owner == user
            }
        &&& forall|user: Seq<char>| #[trigger]
            self.user_streams.contains_key(user) ==> self.user_streams[user].no_duplicates()
    }

    /// Whether the state is consistent: ids are below the counter, every
    /// stream is consistent in itself, the user index agrees with the
    /// streams, every record of a withdrawal in flight agrees with the
    /// streams, and no stream has two withdrawals in flight.
    pub open spec fn wf(self) -> bool {
        &&& forall|id: u64| #[trigger]
            self.streams.contains_key(id) ==> id < self.stream_indexer && self.streams[id].wf()
        &&& self.index_consistent()
        &&& self.temp_outbound_info matches Some(record) ==> self.record_consistent(record)
        &&& forall|a: u64| #[trigger]
            self.pending_outbound.contains_key(a) ==> self.record_consistent(
                self.pending_outbound[a],
            )
        &&& self.one_attempt_per_stream()
    }

    /// Whether no stream that exists in both states is settled to an earlier
    /// time in `later` than in `self`.
    pub open spec fn settled_no_later_than(self, later: LedgerView) -> bool {
        forall|id: u64|
            #![trigger later.streams[id]]
            self.streams.contains_key(id) && later.streams.contains_key(id)
                ==> self.streams[id].last_withdrawn_at <= later.streams[id].last_withdrawn_at
    }
}

impl Ledger {
    /// The state before anything was stored.
    pub fn new() -> (ledger: Ledger)
        ensures
            ledger@ == LedgerView::empty(),
            ledger@.wf(),
    {
        let ledger = Ledger {
            owner: None,
            user_streams: StrMap::new(),
            stream_indexer: 0,
            streams: HashMap::new(),
            remote_contracts: StrMap::new(),
            chain_types: StrMap::new(),
            temp_outbound_info: None,
            pending_outbound: HashMap::new(),
            dst_gas_limit: 0,
            ack_gas_limit: 0,
            relayer_fee: 0,
            contract_version: None,
        };
        assert(ledger@.user_streams =~= Map::empty());
        assert(ledger@.streams =~= Map::empty());
        assert(ledger@.remote_contracts =~= Map::empty());
        ledger
    }

    /// The stream stored under `id`, if any.
    pub fn load_stream(&self, id: u64) -> (found: Option<&RouterPayStreamMetadata>)
        ensures
            found is Some <==> self@.streams.contains_key(id),
            found matches Some(s) ==> s@ == self@.streams[id],
    {
        self.streams.get(&id)
    }

    /// Stores `stream` under `id`, in place of what was there.
    pub fn save_stream(&mut self, id: u64, stream: RouterPayStreamMetadata)
        ensures
            final(self)@ == (LedgerView {
                streams: old(self)@.streams.insert(id, stream@),
                ..old(self)@
            }),
    {
        self.streams.insert(id, stream);
        assert(self@.streams =~= old(self)@.streams.insert(id, stream@));
    }

    /// Takes the stream stored under `id` out of the state.
    pub fn take_stream(&mut self, id: u64) -> (taken: Option<RouterPayStreamMetadata>)
        ensures
            taken is Some <==> old(self)@.streams.contains_key(id),
            taken matches Some(s) ==> s@ == old(self)@.streams[id],
            final(self)@ == (LedgerView {
                streams: old(self)@.streams.remove(id),
                ..old(self)@
            }),
    {
        let taken = self.streams.remove(&id);
        assert(self@.streams =~= old(self)@.streams.remove(id));
        taken
    }

    /// The remote contract registered for `chain_id`, if any.
    pub fn load_remote_contract(&self, chain_id: &String) -> (found: Option<&String>)
        ensures
            found is Some <==> self@.remote_contracts.contains_key(chain_id@),
            found matches Some(c) ==> c@ == self@.remote_contracts[chain_id@],
    {
        self.remote_contracts.get(chain_id)
    }

    /// Registers `contract` as the remote contract of `chain_id`.
    pub fn save_remote_contract(&mut self, chain_id: String, contract: String)
        ensures
            final(self)@ == (LedgerView {
                remote_contracts: old(self)@.remote_contracts.insert(chain_id@, contract@),
                ..old(self)@
            }),
    {
        self.remote_contracts.insert(chain_id, contract);
        assert(self@.remote_contracts =~= old(self)@.remote_contracts.insert(
            chain_id@,
            contract@,
        ));
    }

    /// The address encoding registered for `chain_id`, if any.
    pub fn load_chain_type(&self, chain_id: &String) -> (found: Option<u64>)
        ensures
            found is Some <==> self@.chain_types.contains_key(chain_id@),
            found matches Some(t) ==> t == self@.chain_types[chain_id@],
    {
        match self.chain_types.get(chain_id) {
            Some(t) => Some(*t),
            None => None,
        }
    }

    /// Registers `chain_type` as the address encoding of `chain_id`.
    pub fn save_chain_type(&mut self, chain_id: String, chain_type: u64)
        ensures
            final(self)@ == (LedgerView {
                chain_types: old(self)@.chain_types.insert(chain_id@, chain_type),
                ..old(self)@
            }),
    {
        self.chain_types.insert(chain_id, chain_type);
    }

    /// The ids of the streams that `user` owns, if an entry exists.
    pub fn load_user_streams(&self, user: &String) -> (found: Option<&Vec<u64>>)
        ensures
            found is Some <==> self@.user_streams.contains_key(user@),
            found matches Some(ids) ==> ids@ == self@.user_streams[user@],
    {
        self.user_streams.get(user)
    }

    /// Stores `ids` as the streams that `user` owns.
    pub fn save_user_streams(&mut self, user: String, ids: Vec<u64>)
        ensures
            final(self)@ == (LedgerView {
                user_streams: old(self)@.user_streams.insert(user@, ids@),
                ..old(self)@
            }),
    {
        self.user_streams.insert(user, ids);
        assert(self@.user_streams =~= old(self)@.user_streams.insert(user@, ids@));
    }

    /// The withdrawal awaiting delivery under `request_identifier`, if any.
    pub fn load_pending(&self, request_identifier: u64) -> (found: Option<OutboundInfo>)
        ensures
            found is Some <==> self@.pending_outbound.contains_key(request_identifier),
            found matches Some(r) ==> r == self@.pending_outbound[request_identifier],
    {
        match self.pending_outbound.get(&request_identifier) {
            Some(r) => Some(*r),
            None => None,
        }
    }

    /// Stores `record` as awaiting delivery under `request_identifier`.
    pub fn save_pending(&mut self, request_identifier: u64, record: OutboundInfo)
        ensures
            final(self)@ == (LedgerView {
                pending_outbound: old(self)@.pending_outbound.insert(request_identifier, record),
                ..old(self)@
            }),
    {
        self.pending_outbound.insert(request_identifier, record);
    }

    /// Forgets the withdrawal awaiting delivery under `request_identifier`.
    pub fn remove_pending(&mut self, request_identifier: u64)
        ensures
            final(self)@ == (LedgerView {
                pending_outbound: old(self)@.pending_outbound.remove(request_identifier),
                ..old(self)@
            }),
    {
        self.pending_outbound.remove(&request_identifier);
    }
}

} // verus!

verus! {

/// What an operation does, as mathematical values: the new state and the
/// response, or the failure.
pub type Outcome = Result<(LedgerView, crate::response::ResponseView), crate::errors::LedgerError>;

/// Whether a call ended as `outcome` says: with that response and that new
/// state, or with that failure and the state as it was.
pub open spec fn agrees(
    outcome: Outcome,
    pre: LedgerView,
    post: LedgerView,
    res: Result<crate::response::Response, crate::errors::LedgerError>,
) -> bool {
    match outcome {
        Ok((state, response)) => res is Ok && res->Ok_0@ == response && post == state,
        Err(e) => res == Err::<crate::response::Response, crate::errors::LedgerError>(e) && post
            == pre,
    }
}

} // verus!
