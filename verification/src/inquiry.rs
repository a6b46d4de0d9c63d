//! What the host must be asked before a call, so that its answers can be
//! handed to the ledger as plain values: the addresses whose validity the
//! call may depend on, and the chains whose gas price it may need. The
//! balance of the ledger's own account is always asked for.

use crate::abi::{lowercase, lowercase_of};
use crate::execution::handle_execute_outcome;
use crate::host::{route_balance_of, Deps, Env, MessageInfo};
use crate::ledger::{Ledger, LedgerView};
use crate::msg::{ExecuteMsg, QueryMsg, SudoMsg};
use crate::query::handle_query_result;
use crate::sudo::{decode_withdraw_request, decoded_request, handle_sudo_outcome};
use vstd::prelude::*;

verus! {

/// The questions to the host that a call may depend on.
#[derive(Clone, Debug, PartialEq)]
pub struct Inquiry {
    /// The addresses to validate.
    pub addresses: Vec<String>,
    /// The chains to ask the gas price of.
    pub chains: Vec<String>,
}

/// The questions to the host, as mathematical values.
pub struct InquiryView {
    pub addresses: Seq<Seq<char>>,
    pub chains: Seq<Seq<char>>,
}

impl View for Inquiry {
    type V = InquiryView;

    open spec fn view(&self) -> InquiryView {
        InquiryView {
            addresses: self.addresses@.map_values(|a: String| a@),
            chains: self.chains@.map_values(|c: String| c@),
        }
    }
}

/// Whether two hosts answer the questions alike: they accept the same of
/// the addresses, report the same balance for the ledger's account, and
/// know the same gas prices for the chains.
pub open spec fn same_answers(a: Deps, b: Deps, env: Env, inquiry: InquiryView) -> bool {
    &&& forall|i: int|
        0 <= i < inquiry.addresses.len() ==> a.api.accepts(#[trigger] inquiry.addresses[i])
            == b.api.accepts(inquiry.addresses[i])
    &&& route_balance_of(a, env.contract_address@) == route_balance_of(b, env.contract_address@)
    &&& forall|i: int|
        0 <= i < inquiry.chains.len() ==> {
            &&& a.querier.gas_prices@.contains_key(#[trigger] inquiry.chains[i])
                == b.querier.gas_prices@.contains_key(inquiry.chains[i])
            &&& a.querier.gas_prices@.contains_key(inquiry.chains[i])
                ==> a.querier.gas_prices@[inquiry.chains[i]]
                == b.querier.gas_prices@[inquiry.chains[i]]
        }
}

/// The stored administrator, as a list of at most one address.
pub open spec fn owner_addresses(pre: LedgerView) -> Seq<Seq<char>> {
    match pre.owner {
        Some(owner) => seq![owner],
        None => Seq::empty(),
    }
}

/// The questions that a request may depend on: the administrator's address
/// and the recipient's, and the gas prices of the ledger's chain and of the
/// destination.
pub open spec fn execute_inquiry(pre: LedgerView, env: Env, msg: ExecuteMsg) -> InquiryView {
    match msg {
        ExecuteMsg::CreateStream { recipient, .. } => InquiryView {
            addresses: owner_addresses(pre).push(recipient@),
            chains: seq![env.chain_id@],
        },
        ExecuteMsg::WithdrawSalary { recipient, dst_chain_id, .. } => InquiryView {
            addresses: owner_addresses(pre).push(recipient@),
            chains: match dst_chain_id {
                Some(chain) => seq![env.chain_id@, chain@],
                None => seq![env.chain_id@],
            },
        },
        _ => InquiryView { addresses: owner_addresses(pre), chains: seq![env.chain_id@] },
    }
}

/// The questions that a delivery may depend on: for a request that
/// decodes, the recipient's address in lower case and the gas prices of the
/// ledger's chain and of the destination.
pub open spec fn sudo_inquiry(env: Env, msg: SudoMsg) -> InquiryView {
    match msg {
        SudoMsg::HandleIReceive { payload, .. } => match decoded_request(payload@) {
            Some(request) => InquiryView {
                addresses: seq![lowercase_of(request.recipient)],
                chains: seq![env.chain_id@, request.dst_chain_id],
            },
            None => InquiryView { addresses: Seq::empty(), chains: seq![env.chain_id@] },
        },
        SudoMsg::HandleIAck { .. } => InquiryView {
            addresses: Seq::empty(),
            chains: seq![env.chain_id@],
        },
    }
}

/// The questions that a query may depend on: the address whose streams are
/// asked for.
pub open spec fn query_inquiry(msg: QueryMsg) -> InquiryView {
    match msg {
        QueryMsg::GetUserStreamIds { address } => InquiryView {
            addresses: seq![address@],
            chains: Seq::empty(),
        },
        QueryMsg::GetUserStreamsInfo { address } => InquiryView {
            addresses: seq![address@],
            chains: Seq::empty(),
        },
        _ => InquiryView { addresses: Seq::empty(), chains: Seq::empty() },
    }
}

/// The questions to ask the host before a request.
pub fn inquiry_for_execute(store: &Ledger, env: &Env, msg: &ExecuteMsg) -> (inquiry: Inquiry)
    ensures
        inquiry@ == execute_inquiry(store@, *env, *msg),
{
    let mut addresses: Vec<String> = Vec::new();
    let mut chains: Vec<String> = Vec::new();
    if let Some(owner) = &store.owner {
        addresses.push(owner.clone());
    }
    chains.push(env.chain_id.clone());
    match msg {
        ExecuteMsg::CreateStream { recipient, .. } => {
            addresses.push(recipient.clone());
        },
        ExecuteMsg::WithdrawSalary { recipient, dst_chain_id, .. } => {
            addresses.push(recipient.clone());
            if let Some(chain) = dst_chain_id {
                chains.push(chain.clone());
            }
        },
        _ => {},
    }
    let inquiry = Inquiry { addresses, chains };
    assert(inquiry@.addresses =~= execute_inquiry(store@, *env, *msg).addresses);
    assert(inquiry@.chains =~= execute_inquiry(store@, *env, *msg).chains);
    inquiry
}

/// The questions to ask the host before a delivery.
pub fn inquiry_for_sudo(env: &Env, msg: &SudoMsg) -> (inquiry: Inquiry)
    ensures
        inquiry@ == sudo_inquiry(*env, *msg),
{
    let mut addresses: Vec<String> = Vec::new();
    let mut chains: Vec<String> = Vec::new();
    chains.push(env.chain_id.clone());
    match msg {
        SudoMsg::HandleIReceive { payload, .. } => {
            match decode_withdraw_request(payload) {
                Ok(request) => {
                    addresses.push(lowercase(&request.recipient));
                    chains.push(request.dst_chain_id);
                },
                Err(_) => {},
            }
        },
        SudoMsg::HandleIAck { .. } => {},
    }
    let inquiry = Inquiry { addresses, chains };
    assert(inquiry@.addresses =~= sudo_inquiry(*env, *msg).addresses);
    assert(inquiry@.chains =~= sudo_inquiry(*env, *msg).chains);
    inquiry
}

/// The questions to ask the host before a query.
pub fn inquiry_for_query(msg: &QueryMsg) -> (inquiry: Inquiry)
    ensures
        inquiry@ == query_inquiry(*msg),
{
    let mut addresses: Vec<String> = Vec::new();
    match msg {
        QueryMsg::GetUserStreamIds { address } => {
            addresses.push(address.clone());
        },
        QueryMsg::GetUserStreamsInfo { address } => {
            addresses.push(address.clone());
        },
        _ => {},
    }
    let inquiry = Inquiry { addresses, chains: Vec::new() };
    assert(inquiry@.addresses =~= query_inquiry(*msg).addresses);
    assert(inquiry@.chains =~= query_inquiry(*msg).chains);
    inquiry
}

/// A request reads the host through its questions only: two hosts that
/// answer them alike lead to the same outcome.
pub proof fn law_execute_reads_only_the_inquiry(
    pre: LedgerView,
    a: Deps,
    b: Deps,
    env: Env,
    info: MessageInfo,
    msg: ExecuteMsg,
)
    requires
        same_answers(a, b, env, execute_inquiry(pre, env, msg)),
    ensures
        handle_execute_outcome(pre, a, env, info, msg) == handle_execute_outcome(
            pre,
            b,
            env,
            info,
            msg,
        ),
{
    let inquiry = execute_inquiry(pre, env, msg);
    if pre.owner is Some {
        assert(inquiry.addresses[0] == pre.owner->Some_0);
    }
    assert(crate::modifiers::owner_check(pre, a, info) == crate::modifiers::owner_check(
        pre,
        b,
        info,
    ));
    assert(inquiry.chains[0] == env.chain_id@);
    match msg {
        ExecuteMsg::CreateStream { recipient, .. } => {
            assert(inquiry.addresses[inquiry.addresses.len() - 1] == recipient@);
        },
        ExecuteMsg::WithdrawSalary { recipient, dst_chain_id, .. } => {
            assert(inquiry.addresses[inquiry.addresses.len() - 1] == recipient@);
            if dst_chain_id is Some {
                assert(inquiry.chains[1] == dst_chain_id->Some_0@);
            }
        },
        _ => {},
    }
}

/// A delivery reads the host through its questions only: two hosts that
/// answer them alike lead to the same outcome.
pub proof fn law_sudo_reads_only_the_inquiry(
    pre: LedgerView,
    a: Deps,
    b: Deps,
    env: Env,
    msg: SudoMsg,
)
    requires
        same_answers(a, b, env, sudo_inquiry(env, msg)),
    ensures
        handle_sudo_outcome(pre, a, env, msg) == handle_sudo_outcome(pre, b, env, msg),
{
    let inquiry = sudo_inquiry(env, msg);
    assert(inquiry.chains[0] == env.chain_id@);
    match msg {
        SudoMsg::HandleIReceive { payload, .. } => {
            if decoded_request(payload@) is Some {
                let request = decoded_request(payload@)->Some_0;
                assert(inquiry.addresses[0] == lowercase_of(request.recipient));
                assert(inquiry.chains[1] == request.dst_chain_id);
            }
        },
        SudoMsg::HandleIAck { .. } => {},
    }
}

/// A query reads the host through its questions only: two hosts that answer
/// them alike lead to the same answer.
pub proof fn law_query_reads_only_the_inquiry(
    pre: LedgerView,
    a: Deps,
    b: Deps,
    env: Env,
    msg: QueryMsg,
)
    requires
        same_answers(a, b, env, query_inquiry(msg)),
    ensures
        handle_query_result(pre, a, env, msg) == handle_query_result(pre, b, env, msg),
{
    let inquiry = query_inquiry(msg);
    match msg {
        QueryMsg::GetUserStreamIds { address } => {
            assert(inquiry.addresses[0] == address@);
        },
        QueryMsg::GetUserStreamsInfo { address } => {
            assert(inquiry.addresses[0] == address@);
        },
        _ => {},
    }
}

} // verus!
