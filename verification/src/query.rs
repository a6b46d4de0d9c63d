//! The questions that the ledger answers without changing anything.

use crate::accrual::{accrual, accrual_defined, accrued};
use crate::errors::LedgerError;
use crate::host::{Deps, Env};
use crate::ledger::{ContractVersion, Ledger, LedgerView};
use crate::msg::{QueryMsg, QueryResponse};
use crate::stream::{CrossChainMetadata, RouterPayStreamMetadata, StreamView};
use crate::whitelist::pairs_view;
use vstd::prelude::*;

verus! {

/// The views of a list of streams.
pub open spec fn stream_views(streams: Seq<RouterPayStreamMetadata>) -> Seq<StreamView> {
    streams.map_values(|s: RouterPayStreamMetadata| s@)
}

/// The answer to a question, as mathematical values.
pub enum QueryResponseView {
    ContractVersion { contract: Seq<char>, version: Seq<char> },
    RemoteContract(Seq<char>),
    RouterPayMetadata(StreamView),
    Owner(Seq<char>),
    Streams(Seq<StreamView>),
    StreamWhiteListAddress(Seq<(Seq<char>, Seq<char>)>),
    UserStreamIds(Seq<u64>),
    UserStreamsInfo(Seq<StreamView>),
    IsWhiteListed(bool),
    CrossChainMetadata(CrossChainMetadata),
    AccumulatedAmount(u128),
}

impl View for QueryResponse {
    type V = QueryResponseView;

    open spec fn view(&self) -> QueryResponseView {
        match self {
            QueryResponse::ContractVersion { contract, version } =>
                QueryResponseView::ContractVersion { contract: contract@, version: version@ },
            QueryResponse::RemoteContract(contract) => QueryResponseView::RemoteContract(contract@),
            QueryResponse::RouterPayMetadata(stream) => QueryResponseView::RouterPayMetadata(
                stream@,
            ),
            QueryResponse::Owner(owner) => QueryResponseView::Owner(owner@),
            QueryResponse::Streams(streams) => QueryResponseView::Streams(stream_views(streams@)),
            QueryResponse::StreamWhiteListAddress(pairs) =>
                QueryResponseView::StreamWhiteListAddress(pairs_view(pairs@)),
            QueryResponse::UserStreamIds(ids) => QueryResponseView::UserStreamIds(ids@),
            QueryResponse::UserStreamsInfo(streams) => QueryResponseView::UserStreamsInfo(
                stream_views(streams@),
            ),
            QueryResponse::IsWhiteListed(listed) => QueryResponseView::IsWhiteListed(*listed),
            QueryResponse::CrossChainMetadata(metadata) => QueryResponseView::CrossChainMetadata(
                *metadata,
            ),
            QueryResponse::AccumulatedAmount(amount) => QueryResponseView::AccumulatedAmount(
                *amount,
            ),
        }
    }
}

/// The administrator.
pub fn get_owner(store: &Ledger) -> (res: Result<String, LedgerError>)
    ensures
        match store@.owner {
            Some(owner) => res is Ok && res->Ok_0@ == owner,
            None => res == Err::<String, LedgerError>(LedgerError::OwnerNotSet),
        },
{
    match &store.owner {
        Some(owner) => Ok(owner.clone()),
        None => Err(LedgerError::OwnerNotSet),
    }
}

/// What a stream owes at the block's time: its rate times the seconds since
/// it was last settled. It fails where the stream does not exist, has not
/// started, or owes more than the amount type holds.
pub open spec fn accumulated_amount(pre: LedgerView, env: Env, stream_id: u64) -> Result<
    u128,
    LedgerError,
> {
    if !pre.streams.contains_key(stream_id) {
        Err(LedgerError::StreamNotFound)
    } else {
        let stream = pre.streams[stream_id];
        if env.block_time < stream.last_withdrawn_at {
            Err(LedgerError::StreamNotStarted)
        } else if !accrual_defined(stream.pay_per_sec, stream.last_withdrawn_at, env.block_time) {
            Err(LedgerError::Overflow)
        } else {
            Ok(accrued(stream.pay_per_sec, stream.last_withdrawn_at, env.block_time) as u128)
        }
    }
}

/// The amount that a stream has accrued and not yet settled.
pub fn get_accumulated_amount(store: &Ledger, env: &Env, stream_id: u64) -> (res: Result<
    u128,
    LedgerError,
>)
    ensures
        res == accumulated_amount(store@, *env, stream_id),
{
    match store.load_stream(stream_id) {
        Some(stream) => if env.block_time < stream.last_withdrawn_at {
            Err(LedgerError::StreamNotStarted)
        } else {
            match accrual(stream.pay_per_sec, stream.last_withdrawn_at, env.block_time) {
                Some(owed) => Ok(owed),
                None => Err(LedgerError::Overflow),
            }
        },
        None => Err(LedgerError::StreamNotFound),
    }
}

/// The settings that cross-chain requests carry.
pub fn get_crosschain_metadata(store: &Ledger) -> (res: Result<CrossChainMetadata, LedgerError>)
    ensures
        res == Ok::<CrossChainMetadata, LedgerError>(
            CrossChainMetadata {
                relayer_fee: store@.relayer_fee,
                ack_gas_limit: store@.ack_gas_limit,
                dst_gas_limit: store@.dst_gas_limit,
            },
        ),
{
    Ok(
        CrossChainMetadata {
            ack_gas_limit: store.ack_gas_limit,
            relayer_fee: store.relayer_fee,
            dst_gas_limit: store.dst_gas_limit,
        },
    )
}

/// Whether a pair is listed in the whitelist of a stream.
pub open spec fn white_listed(
    pre: LedgerView,
    stream_id: u64,
    chain_id: Seq<char>,
    address: Seq<char>,
) -> Result<bool, LedgerError> {
    if !pre.streams.contains_key(stream_id) {
        Err(LedgerError::StreamNotFound)
    } else {
        Ok(pre.streams[stream_id].whitelisted_addresses.contains((chain_id, address)))
    }
}

/// Whether `address` on `chain_id` may withdraw from the stream.
pub fn is_white_listed(store: &Ledger, stream_id: u64, chain_id: String, address: String) -> (res:
    Result<bool, LedgerError>)
    ensures
        res == white_listed(store@, stream_id, chain_id@, address@),
{
    match store.load_stream(stream_id) {
        Some(stream) => Ok(stream.whitelisted_addresses.contains(&chain_id, &address)),
        None => Err(LedgerError::StreamNotFound),
    }
}

/// The remote contract registered for a chain.
pub fn get_remote_contract(store: &Ledger, chain_id: String) -> (res: Result<String, LedgerError>)
    ensures
        if store@.remote_contracts.contains_key(chain_id@) {
            res is Ok && res->Ok_0@ == store@.remote_contracts[chain_id@]
        } else {
            res == Err::<String, LedgerError>(LedgerError::RemoteContractNotFound)
        },
{
    match store.load_remote_contract(&chain_id) {
        Some(contract) => Ok(contract.clone()),
        None => Err(LedgerError::RemoteContractNotFound),
    }
}

/// The contract type and version that wrote the state.
pub fn get_contract_version(store: &Ledger) -> (res: Result<ContractVersion, LedgerError>)
    ensures
        match store@.contract_version {
            Some(version) => res is Ok && (res->Ok_0.contract@, res->Ok_0.version@) == version,
            None => res == Err::<ContractVersion, LedgerError>(LedgerError::VersionNotSet),
        },
{
    match &store.contract_version {
        Some(v) => Ok(ContractVersion { contract: v.contract.clone(), version: v.version.clone() }),
        None => Err(LedgerError::VersionNotSet),
    }
}

/// The ids of the streams that an account owns: none where the account has
/// no entry.
pub open spec fn user_stream_ids(pre: LedgerView, deps: Deps, address: Seq<char>) -> Result<
    Seq<u64>,
    LedgerError,
> {
    if !deps.api.accepts(address) {
        Err(LedgerError::InvalidAddress)
    } else if pre.user_streams.contains_key(address) {
        Ok(pre.user_streams[address])
    } else {
        Ok(Seq::empty())
    }
}

/// The ids of the streams that `address` owns, in the order of their creation.
pub fn get_user_stream_ids(store: &Ledger, deps: &Deps, address: String) -> (res: Result<
    Vec<u64>,
    LedgerError,
>)
    ensures
        match user_stream_ids(store@, *deps, address@) {
            Ok(ids) => res is Ok && res->Ok_0@ == ids,
            Err(e) => res == Err::<Vec<u64>, LedgerError>(e),
        },
{
    if !deps.api.addr_validate(&address) {
        return Err(LedgerError::InvalidAddress);
    }
    let mut out: Vec<u64> = Vec::new();
    if let Some(ids) = store.load_user_streams(&address) {
        let mut i: usize = 0;
        while i < ids.len()
            invariant
                i <= ids.len(),
                out@ == ids@.take(i as int),
            decreases ids.len() - i,
        {
            out.push(ids[i]);
            assert(ids@.take(i + 1) =~= ids@.take(i as int).push(ids@[i as int]));
            i = i + 1;
        }
        assert(ids@.take(i as int) =~= ids@);
    }
    Ok(out)
}

/// The streams that an account owns. It fails where the address is no valid
/// account, or where the user index names a stream that does not exist.
pub open spec fn user_streams_info(pre: LedgerView, deps: Deps, address: Seq<char>) -> Result<
    Seq<StreamView>,
    LedgerError,
> {
    match user_stream_ids(pre, deps, address) {
        Err(e) => Err(e),
        Ok(ids) => if forall|i: int| 0 <= i < ids.len() ==> pre.streams.contains_key(#[trigger] ids[i]) {
            Ok(Seq::new(ids.len(), |i: int| pre.streams[ids[i]]))
        } else {
            Err(LedgerError::IndexedStreamMissing)
        },
    }
}

/// The streams that `address` owns, in the order of their creation.
#[verifier::loop_isolation(false)]
pub fn get_user_streams_info(store: &Ledger, deps: &Deps, address: String) -> (res: Result<
    Vec<RouterPayStreamMetadata>,
    LedgerError,
>)
    ensures
        match user_streams_info(store@, *deps, address@) {
            Ok(streams) => res is Ok && stream_views(res->Ok_0@) == streams,
            Err(e) => res == Err::<Vec<RouterPayStreamMetadata>, LedgerError>(e),
        },
{
    let ids: Vec<u64> = match get_user_stream_ids(store, deps, address) {
        Ok(ids) => ids,
        Err(e) => {
            return Err(e);
        },
    };
    let mut out: Vec<RouterPayStreamMetadata> = Vec::new();
    let mut i: usize = 0;
    while i < ids.len()
        invariant
            i <= ids.len(),
            out@.len() == i,
            forall|j: int| 0 <= j < i ==> store@.streams.contains_key(#[trigger] ids@[j]),
            forall|j: int| 0 <= j < i ==> (#[trigger] out@[j])@ == store@.streams[ids@[j]],
        decreases ids.len() - i,
    {
        match store.load_stream(ids[i]) {
            Some(stream) => {
                out.push(stream.duplicate());
            },
            None => {
                assert(!store@.streams.contains_key(ids@[i as int]));
                return Err(LedgerError::IndexedStreamMissing);
            },
        }
        i = i + 1;
    }
    assert(stream_views(out@) =~= Seq::new(ids@.len(), |i: int| store@.streams[ids@[i]]));
    Ok(out)
}

/// The stream stored under an id.
pub fn get_routerpay_metadata(store: &Ledger, stream_id: u64) -> (res: Result<
    RouterPayStreamMetadata,
    LedgerError,
>)
    ensures
        if store@.streams.contains_key(stream_id) {
            res is Ok && res->Ok_0@ == store@.streams[stream_id]
        } else {
            res == Err::<RouterPayStreamMetadata, LedgerError>(LedgerError::StreamNotFound)
        },
{
    match store.load_stream(stream_id) {
        Some(stream) => Ok(stream.duplicate()),
        None => Err(LedgerError::StreamNotFound),
    }
}

/// The parties that may withdraw from a stream, in the order they were added.
pub fn get_white_listed_addresses(store: &Ledger, stream_id: u64) -> (res: Result<
    Vec<(String, String)>,
    LedgerError,
>)
    ensures
        if store@.streams.contains_key(stream_id) {
            res is Ok && pairs_view(res->Ok_0@) == store@.streams[stream_id].whitelisted_addresses
        } else {
            res == Err::<Vec<(String, String)>, LedgerError>(LedgerError::StreamNotFound)
        },
{
    match store.load_stream(stream_id) {
        Some(stream) => Ok(stream.whitelisted_addresses.pairs()),
        None => Err(LedgerError::StreamNotFound),
    }
}

/// The last id of a range that starts at `from`: the one given, unless it
/// lies before `from`; ten ids further where none is given or the given one
/// lies before `from`, and never beyond the largest id.
pub open spec fn range_end(from: u64, to: Option<u64>) -> u64 {
    let fallback = if from + 10 <= u64::MAX {
        (from + 10) as u64
    } else {
        u64::MAX
    };
    match to {
        Some(end) => if end < from {
            fallback
        } else {
            end
        },
        None => fallback,
    }
}

/// The streams with the `count` ids from `from` on, in the order of their ids.
pub open spec fn streams_between(m: Map<u64, StreamView>, from: u64, count: nat) -> Seq<StreamView>
    decreases count,
{
    if count == 0 {
        Seq::empty()
    } else {
        let init = streams_between(m, from, (count - 1) as nat);
        let id = (from + count - 1) as u64;
        if m.contains_key(id) {
            init.push(m[id])
        } else {
            init
        }
    }
}

/// The streams whose ids lie in a range, in the order of their ids.
pub fn get_streams(store: &Ledger, from: u64, to: Option<u64>) -> (res: Result<
    Vec<RouterPayStreamMetadata>,
    LedgerError,
>)
    ensures
        res is Ok,
        stream_views(res->Ok_0@) == streams_between(
            store@.streams,
            from,
            (range_end(from, to) - from + 1) as nat,
        ),
{
    let fallback: u64 = if from <= u64::MAX - 10 {
        from + 10
    } else {
        u64::MAX
    };
    let end: u64 = match to {
        Some(t) => if t < from {
            fallback
        } else {
            t
        },
        None => fallback,
    };
    let mut out: Vec<RouterPayStreamMetadata> = Vec::new();
    let mut id: u64 = from;
    let mut done: bool = false;
    assert(stream_views(out@) =~= Seq::empty());
    while !done
        invariant
            from <= id <= end,
            end == range_end(from, to),
            !done ==> stream_views(out@) == streams_between(
                store@.streams,
                from,
                (id - from) as nat,
            ),
            done ==> stream_views(out@) == streams_between(
                store@.streams,
                from,
                (end - from + 1) as nat,
            ),
        decreases (end - id) + (if done { 0int } else { 1int }),
    {
        let ghost before = stream_views(out@);
        if let Some(stream) = store.load_stream(id) {
            out.push(stream.duplicate());
            assert(stream_views(out@) =~= before.push(store@.streams[id]));
        }
        assert(stream_views(out@) == streams_between(
            store@.streams,
            from,
            (id - from + 1) as nat,
        ));
        if id == end {
            done = true;
        } else {
            id = id + 1;
        }
    }
    Ok(out)
}

/// The answer to a question.
pub open spec fn handle_query_result(pre: LedgerView, deps: Deps, env: Env, msg: QueryMsg) -> Result<
    QueryResponseView,
    LedgerError,
> {
    match msg {
        QueryMsg::GetContractVersion {  } => match pre.contract_version {
            Some((contract, version)) => Ok(QueryResponseView::ContractVersion { contract, version }),
            None => Err(LedgerError::VersionNotSet),
        },
        QueryMsg::GetOwner {  } => match pre.owner {
            Some(owner) => Ok(QueryResponseView::Owner(owner)),
            None => Err(LedgerError::OwnerNotSet),
        },
        QueryMsg::GetRemoteContract { chain_id } => if pre.remote_contracts.contains_key(chain_id@) {
            Ok(QueryResponseView::RemoteContract(pre.remote_contracts[chain_id@]))
        } else {
            Err(LedgerError::RemoteContractNotFound)
        },
        QueryMsg::IsWhiteListed { stream_id, chain_id, address } => match white_listed(
            pre,
            stream_id,
            chain_id@,
            address@,
        ) {
            Ok(listed) => Ok(QueryResponseView::IsWhiteListed(listed)),
            Err(e) => Err(e),
        },
        QueryMsg::GetCrossChainMetadata {  } => Ok(
            QueryResponseView::CrossChainMetadata(
                CrossChainMetadata {
                    relayer_fee: pre.relayer_fee,
                    ack_gas_limit: pre.ack_gas_limit,
                    dst_gas_limit: pre.dst_gas_limit,
                },
            ),
        ),
        QueryMsg::GetRouterPayMetadata { stream_id } => if pre.streams.contains_key(stream_id) {
            Ok(QueryResponseView::RouterPayMetadata(pre.streams[stream_id]))
        } else {
            Err(LedgerError::StreamNotFound)
        },
        QueryMsg::GetStreamWhiteListAddress { stream_id } => if pre.streams.contains_key(
            stream_id,
        ) {
            Ok(
                QueryResponseView::StreamWhiteListAddress(
                    pre.streams[stream_id].whitelisted_addresses,
                ),
            )
        } else {
            Err(LedgerError::StreamNotFound)
        },
        QueryMsg::GetAccumulatedAmount { stream_id } => match accumulated_amount(
            pre,
            env,
            stream_id,
        ) {
            Ok(amount) => Ok(QueryResponseView::AccumulatedAmount(amount)),
            Err(e) => Err(e),
        },
        QueryMsg::GetStreams { from, to } => Ok(
            QueryResponseView::Streams(
                streams_between(pre.streams, from, (range_end(from, to) - from + 1) as nat),
            ),
        ),
        QueryMsg::GetUserStreamIds { address } => match user_stream_ids(pre, deps, address@) {
            Ok(ids) => Ok(QueryResponseView::UserStreamIds(ids)),
            Err(e) => Err(e),
        },
        QueryMsg::GetUserStreamsInfo { address } => match user_streams_info(pre, deps, address@) {
            Ok(streams) => Ok(QueryResponseView::UserStreamsInfo(streams)),
            Err(e) => Err(e),
        },
    }
}

/// Answers a question.
pub fn handle_query(store: &Ledger, deps: &Deps, env: &Env, msg: QueryMsg) -> (res: Result<
    QueryResponse,
    LedgerError,
>)
    ensures
        match handle_query_result(store@, *deps, *env, msg) {
            Ok(answer) => res is Ok && res->Ok_0@ == answer,
            Err(e) => res == Err::<QueryResponse, LedgerError>(e),
        },
{
    match msg {
        QueryMsg::GetContractVersion {  } => match get_contract_version(store) {
            Ok(v) => Ok(QueryResponse::ContractVersion { contract: v.contract, version: v.version }),
            Err(e) => Err(e),
        },
        QueryMsg::GetOwner {  } => match get_owner(store) {
            Ok(owner) => Ok(QueryResponse::Owner(owner)),
            Err(e) => Err(e),
        },
        QueryMsg::GetRemoteContract { chain_id } => match get_remote_contract(store, chain_id) {
            Ok(contract) => Ok(QueryResponse::RemoteContract(contract)),
            Err(e) => Err(e),
        },
        QueryMsg::IsWhiteListed { stream_id, chain_id, address } => match is_white_listed(
            store,
            stream_id,
            chain_id,
            address,
        ) {
            Ok(listed) => Ok(QueryResponse::IsWhiteListed(listed)),
            Err(e) => Err(e),
        },
        QueryMsg::GetCrossChainMetadata {  } => match get_crosschain_metadata(store) {
            Ok(metadata) => Ok(QueryResponse::CrossChainMetadata(metadata)),
            Err(e) => Err(e),
        },
        QueryMsg::GetRouterPayMetadata { stream_id } => match get_routerpay_metadata(
            store,
            stream_id,
        ) {
            Ok(stream) => Ok(QueryResponse::RouterPayMetadata(stream)),
            Err(e) => Err(e),
        },
        QueryMsg::GetStreamWhiteListAddress { stream_id } => match get_white_listed_addresses(
            store,
            stream_id,
        ) {
            Ok(pairs) => Ok(QueryResponse::StreamWhiteListAddress(pairs)),
            Err(e) => Err(e),
        },
        QueryMsg::GetAccumulatedAmount { stream_id } => match get_accumulated_amount(
            store,
            env,
            stream_id,
        ) {
            Ok(amount) => Ok(QueryResponse::AccumulatedAmount(amount)),
            Err(e) => Err(e),
        },
        QueryMsg::GetStreams { from, to } => match get_streams(store, from, to) {
            Ok(streams) => Ok(QueryResponse::Streams(streams)),
            Err(e) => Err(e),
        },
        QueryMsg::GetUserStreamIds { address } => match get_user_stream_ids(store, deps, address) {
            Ok(ids) => Ok(QueryResponse::UserStreamIds(ids)),
            Err(e) => Err(e),
        },
        QueryMsg::GetUserStreamsInfo { address } => match get_user_streams_info(
            store,
            deps,
            address,
        ) {
            Ok(streams) => Ok(QueryResponse::UserStreamsInfo(streams)),
            Err(e) => Err(e),
        },
    }
}

} // verus!
