//! The calls that the ledger takes: setting it up, requests, reports on a
//! dispatch, deliveries of the messaging layer, questions, and the move to
//! this version.

use crate::errors::LedgerError;
use crate::execution::{handle_execute, handle_execute_outcome};
use crate::host::{Deps, Env, MessageInfo};
use crate::ledger::{agrees, ContractVersion, Ledger, LedgerView, Outcome};
use crate::msg::{
    ExecuteMsg, InstantiateMsg, MigrateMsg, QueryMsg, QueryResponse, Reply, SudoMsg,
};
use crate::query::{handle_query, handle_query_result};
use crate::reply::{handle_reply, handle_reply_outcome};
use crate::response::{AttrKey, Response, ResponseView};
use crate::sudo::{handle_sudo, handle_sudo_outcome};
use vstd::prelude::*;
use vstd::slice::*;
use vstd::string::*;
use vstd::utf8::encode_utf8;

verus! {

/// The type of this contract.
pub const CONTRACT_NAME: &'static str = "routerpay";

/// The version of this contract.
pub const CONTRACT_VERSION: &'static str = "1.0.0";

/// What the first response says that happened.
pub const INIT_ACTION: &'static str = "routerpay-init";

/// Whether `a` comes before `b` in the order of byte strings: at the first
/// place where they differ `a` has the smaller byte, or `a` ends first.
pub open spec fn bytes_less(a: Seq<u8>, b: Seq<u8>) -> bool
    decreases a.len(),
{
    if b.len() == 0 {
        false
    } else if a.len() == 0 {
        true
    } else if a[0] != b[0] {
        a[0] < b[0]
    } else {
        bytes_less(a.drop_first(), b.drop_first())
    }
}

/// Whether text `a` comes before text `b`, by their bytes.
pub open spec fn text_less(a: Seq<char>, b: Seq<char>) -> bool {
    bytes_less(encode_utf8(a), encode_utf8(b))
}

/// Whether `a` comes before `b` in the order of byte strings.
pub fn is_bytes_less(a: &[u8], b: &[u8]) -> (less: bool)
    ensures
        less == bytes_less(a@, b@),
{
    let mut i: usize = 0;
    assert(a@.skip(0) =~= a@ && b@.skip(0) =~= b@);
    while i < a.len() && i < b.len()
        invariant
            i <= a.len(),
            i <= b.len(),
            bytes_less(a@, b@) == bytes_less(a@.skip(i as int), b@.skip(i as int)),
        decreases a.len() - i,
    {
        assert(a@.skip(i as int)[0] == a@[i as int]);
        assert(b@.skip(i as int)[0] == b@[i as int]);
        assert(a@.skip(i as int).drop_first() =~= a@.skip(i + 1));
        assert(b@.skip(i as int).drop_first() =~= b@.skip(i + 1));
        if a[i] != b[i] {
            return a[i] < b[i];
        }
        i = i + 1;
    }
    i < b.len()
}

/// Whether text `a` comes before text `b`, by their bytes.
pub fn is_text_less(a: &String, b: &String) -> (less: bool)
    ensures
        less == text_less(a@, b@),
{
    is_bytes_less(a.as_str().as_bytes(), b.as_str().as_bytes())
}

/// What setting the ledger up does: the administrator and the settings are
/// stored, the id counter starts at zero, and the contract's type and
/// version are recorded.
pub open spec fn instantiate_outcome(pre: LedgerView, msg: InstantiateMsg) -> Outcome {
    Ok(
        (
            LedgerView {
                owner: Some(msg.owner@),
                dst_gas_limit: msg.dst_gas_limit,
                ack_gas_limit: msg.ack_gas_limit,
                relayer_fee: msg.relayer_fee,
                stream_indexer: 0,
                contract_version: Some((CONTRACT_NAME@, CONTRACT_VERSION@)),
                ..pre
            },
            ResponseView::new().attribute(AttrKey::Action, INIT_ACTION@),
        ),
    )
}

/// Sets the ledger up.
pub fn instantiate(store: &mut Ledger, msg: InstantiateMsg) -> (res: Result<Response, LedgerError>)
    ensures
        agrees(instantiate_outcome(old(store)@, msg), old(store)@, final(store)@, res),
{
    store.owner = Some(msg.owner);
    store.dst_gas_limit = msg.dst_gas_limit;
    store.ack_gas_limit = msg.ack_gas_limit;
    store.relayer_fee = msg.relayer_fee;
    store.stream_indexer = 0;
    store.contract_version = Some(
        ContractVersion {
            contract: String::from_str(CONTRACT_NAME),
            version: String::from_str(CONTRACT_VERSION),
        },
    );
    Ok(Response::new().add_attribute(AttrKey::Action, String::from_str(INIT_ACTION)))
}

/// What moving to this version does. It fails where no version is stored,
/// the stored contract is of another type, or the stored version does not
/// come before this one. Otherwise this contract's type and version are
/// recorded.
pub open spec fn migrate_outcome(pre: LedgerView) -> Outcome {
    match pre.contract_version {
        None => Err(LedgerError::VersionNotSet),
        Some((contract, version)) => if contract != CONTRACT_NAME@ {
            Err(LedgerError::WrongContract)
        } else if !text_less(version, CONTRACT_VERSION@) {
            Err(LedgerError::NewerVersion)
        } else {
            Ok(
                (
                    LedgerView {
                        contract_version: Some((CONTRACT_NAME@, CONTRACT_VERSION@)),
                        ..pre
                    },
                    ResponseView::new(),
                ),
            )
        },
    }
}

/// Moves the ledger to this version.
pub fn migrate(store: &mut Ledger, msg: MigrateMsg) -> (res: Result<Response, LedgerError>)
    ensures
        agrees(migrate_outcome(old(store)@), old(store)@, final(store)@, res),
{
    let name = String::from_str(CONTRACT_NAME);
    let version = String::from_str(CONTRACT_VERSION);
    match &store.contract_version {
        None => {
            return Err(LedgerError::VersionNotSet);
        },
        Some(stored) => {
            if stored.contract != name {
                return Err(LedgerError::WrongContract);
            }
            if !is_text_less(&stored.version, &version) {
                return Err(LedgerError::NewerVersion);
            }
        },
    }
    store.contract_version = Some(ContractVersion { contract: name, version });
    Ok(Response::new())
}

/// Carries out a request.
pub fn execute(
    store: &mut Ledger,
    deps: &Deps,
    env: &Env,
    info: &MessageInfo,
    msg: ExecuteMsg,
) -> (res: Result<Response, LedgerError>)
    ensures
        agrees(
            handle_execute_outcome(old(store)@, *deps, *env, *info, msg),
            old(store)@,
            final(store)@,
            res,
        ),
{
    handle_execute(store, deps, env, info, msg)
}

/// Takes in the report on the dispatch of a cross-chain request.
pub fn reply(store: &mut Ledger, msg: Reply) -> (res: Result<Response, LedgerError>)
    ensures
        agrees(handle_reply_outcome(old(store)@, msg), old(store)@, final(store)@, res),
{
    handle_reply(store, msg)
}

/// Answers a question.
pub fn query(store: &Ledger, deps: &Deps, env: &Env, msg: QueryMsg) -> (res: Result<
    QueryResponse,
    LedgerError,
>)
    ensures
        match handle_query_result(store@, *deps, *env, msg) {
            Ok(answer) => res is Ok && res->Ok_0@ == answer,
            Err(e) => res == Err::<QueryResponse, LedgerError>(e),
        },
{
    handle_query(store, deps, env, msg)
}

/// Takes in what the messaging layer delivers.
pub fn sudo(store: &mut Ledger, deps: &Deps, env: &Env, msg: SudoMsg) -> (res: Result<
    Response,
    LedgerError,
>)
    ensures
        agrees(handle_sudo_outcome(old(store)@, *deps, *env, msg), old(store)@, final(store)@, res),
{
    handle_sudo(store, deps, env, msg)
}

} // verus!
