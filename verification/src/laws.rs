//! What holds of the ledger whatever is asked of it: the state stays
//! consistent, no stream has two withdrawals in flight, and no stream's
//! settled time ever moves backwards.

use crate::accrual::{
    accrual_defined, accrued, cap_applies, law_settlement_bounds, rate_per_second,
};
use crate::contract::{instantiate_outcome, migrate_outcome};
use crate::execution::{
    cancel_stream_outcome, create_stream_outcome, effective_start, handle_execute_outcome,
    pairs_or_none, update_whitelist_address_outcome, whitelist_of,
};
use crate::query::{accumulated_amount, user_stream_ids, user_streams_info};
use crate::host::{Deps, Env, MessageInfo};
use crate::ledger::{LedgerView, Outcome};
use crate::msg::{ExecuteMsg, InstantiateMsg, Reply, SubMsgResult, SudoMsg};
use crate::reply::{handle_reply_outcome, handle_sub_message_failed_outcome, rolled_back_outcome};
use crate::seqs::{lemma_with_value_no_duplicates, lemma_without_no_duplicates};
use crate::sudo::{handle_sudo_ack_outcome, handle_sudo_outcome, handle_sudo_request_outcome};
use crate::withdrawal::{
    withdraw_on_other_chain_outcome, withdraw_on_router_chain_outcome, withdraw_salary_outcome,
};
use vstd::prelude::*;

verus! {

/// Whether `post` can follow `pre`: the id counter did not move back, no
/// stream with an id that `pre` had handed out appears anew, and no stream
/// of both states is settled to an earlier time in `post`.
pub open spec fn follows(pre: LedgerView, post: LedgerView) -> bool {
    &&& pre.stream_indexer <= post.stream_indexer
    &&& forall|id: u64|
        #![trigger post.streams.contains_key(id)]
        post.streams.contains_key(id) && id < pre.stream_indexer ==> pre.streams.contains_key(id)
    &&& pre.settled_no_later_than(post)
}

/// Whether an outcome keeps the ledger in order: where it succeeds, the new
/// state is consistent and follows the old one.
pub open spec fn keeps_order(pre: LedgerView, outcome: Outcome) -> bool {
    outcome matches Ok((post, _)) ==> post.wf() && follows(pre, post)
}

/// A whitelist built from a list without repetitions has none.
pub proof fn lemma_whitelist_of_no_duplicates(
    init: Seq<(Seq<char>, Seq<char>)>,
    pairs: Seq<(Seq<char>, Seq<char>)>,
)
    requires
        init.no_duplicates(),
    ensures
        whitelist_of(init, pairs).no_duplicates(),
    decreases pairs.len(),
{
    if pairs.len() > 0 {
        lemma_whitelist_of_no_duplicates(init, pairs.drop_last());
        lemma_with_value_no_duplicates(whitelist_of(init, pairs.drop_last()), pairs.last());
    }
}

/// A state with the user index of a state whose index agrees with its
/// streams, and with the same streams under the same owners, has an index
/// that agrees with its streams.
pub proof fn lemma_index_kept(pre: LedgerView, post: LedgerView)
    requires
        pre.index_consistent(),
        post.user_streams == pre.user_streams,
        forall|id: u64| pre.streams.contains_key(id) == post.streams.contains_key(id),
        forall|id: u64|
            pre.streams.contains_key(id) ==> (#[trigger] post.streams[id]).recipient_owner
                == pre.streams[id].recipient_owner,
    ensures
        post.index_consistent(),
{
    assert forall|id: u64| #[trigger] post.streams.contains_key(id) implies post.user_streams.contains_key(
        post.streams[id].recipient_owner,
    ) && post.user_streams[post.streams[id].recipient_owner].contains(id) by {
        assert(pre.streams.contains_key(id));
    }
    assert forall|user: Seq<char>, i: int|
        post.user_streams.contains_key(user) && 0 <= i < post.user_streams[user].len() implies {
        &&& post.streams.contains_key(#[trigger] post.user_streams[user][i])
        &&& post.streams[post.user_streams[user][i]].recipient_owner == user
    } by {
        assert(pre.streams.contains_key(pre.user_streams[user][i]));
    }
}

/// The creation of a stream keeps the user index in agreement.
pub proof fn lemma_create_stream_keeps_index(
    pre: LedgerView,
    post: LedgerView,
    recipient: Seq<char>,
)
    requires
        pre.wf(),
        post.streams == pre.streams.insert(pre.stream_indexer, post.streams[pre.stream_indexer]),
        post.streams[pre.stream_indexer].recipient_owner == recipient,
        post.user_streams == pre.user_streams.insert(
            recipient,
            crate::seqs::with_value(
                crate::execution::ids_or_empty(pre.user_streams, recipient),
                pre.stream_indexer,
            ),
        ),
    ensures
        post.index_consistent(),
{
    let id = pre.stream_indexer;
    let old_ids = crate::execution::ids_or_empty(pre.user_streams, recipient);
    let new_ids = post.user_streams[recipient];
    assert(!pre.streams.contains_key(id));
    assert(!old_ids.contains(id)) by {
        if old_ids.contains(id) {
            let i = choose|i: int| 0 <= i < old_ids.len() && old_ids[i] == id;
            assert(pre.streams.contains_key(pre.user_streams[recipient][i]));
        }
    }
    assert(new_ids == old_ids.push(id));
    assert(old_ids.no_duplicates());
    lemma_with_value_no_duplicates(old_ids, id);
    assert forall|x: u64| #[trigger] post.streams.contains_key(x) implies post.user_streams.contains_key(
        post.streams[x].recipient_owner,
    ) && post.user_streams[post.streams[x].recipient_owner].contains(x) by {
        if x == id {
            assert(new_ids[old_ids.len() as int] == id);
        } else {
            assert(pre.streams.contains_key(x));
            let owner = pre.streams[x].recipient_owner;
            if owner == recipient {
                let i = choose|i: int| 0 <= i < old_ids.len() && old_ids[i] == x;
                assert(new_ids[i] == x);
            }
        }
    }
    assert forall|user: Seq<char>, i: int|
        post.user_streams.contains_key(user) && 0 <= i < post.user_streams[user].len() implies {
        &&& post.streams.contains_key(#[trigger] post.user_streams[user][i])
        &&& post.streams[post.user_streams[user][i]].recipient_owner == user
    } by {
        if user == recipient {
            if i < old_ids.len() {
                assert(new_ids[i] == old_ids[i]);
                assert(pre.streams.contains_key(pre.user_streams[user][i]));
            }
        } else {
            assert(pre.streams.contains_key(pre.user_streams[user][i]));
        }
    }
    assert forall|user: Seq<char>| #[trigger]
        post.user_streams.contains_key(user) implies post.user_streams[user].no_duplicates() by {
        if user != recipient {
            assert(pre.user_streams.contains_key(user));
        }
    }
}

/// The cancellation of a stream keeps the user index in agreement.
pub proof fn lemma_cancel_stream_keeps_index(pre: LedgerView, post: LedgerView, stream_id: u64)
    requires
        pre.wf(),
        pre.streams.contains_key(stream_id),
        post.streams == pre.streams.remove(stream_id),
        post.user_streams == pre.user_streams.insert(
            pre.streams[stream_id].recipient_owner,
            crate::seqs::without(
                pre.user_streams[pre.streams[stream_id].recipient_owner],
                stream_id,
            ),
        ),
    ensures
        post.index_consistent(),
{
    let owner = pre.streams[stream_id].recipient_owner;
    let old_ids = pre.user_streams[owner];
    let new_ids = crate::seqs::without(old_ids, stream_id);
    assert(pre.user_streams.contains_key(owner));
    lemma_without_no_duplicates(old_ids, stream_id);
    assert forall|x: u64| #[trigger] post.streams.contains_key(x) implies post.user_streams.contains_key(
        post.streams[x].recipient_owner,
    ) && post.user_streams[post.streams[x].recipient_owner].contains(x) by {
        assert(pre.streams.contains_key(x));
        if pre.streams[x].recipient_owner == owner {
            crate::seqs::lemma_without_contains(old_ids, stream_id, x);
        }
    }
    assert forall|user: Seq<char>, i: int|
        post.user_streams.contains_key(user) && 0 <= i < post.user_streams[user].len() implies {
        &&& post.streams.contains_key(#[trigger] post.user_streams[user][i])
        &&& post.streams[post.user_streams[user][i]].recipient_owner == user
    } by {
        if user == owner {
            let e = new_ids[i];
            assert(new_ids.contains(e));
            crate::seqs::lemma_without_contains(old_ids, stream_id, e);
            let j = choose|j: int| 0 <= j < old_ids.len() && old_ids[j] == e;
            assert(pre.streams.contains_key(pre.user_streams[owner][j]));
        } else {
            assert(pre.streams.contains_key(pre.user_streams[user][i]));
        }
    }
    assert forall|user: Seq<char>| #[trigger]
        post.user_streams.contains_key(user) implies post.user_streams[user].no_duplicates() by {
        if user != owner {
            assert(pre.user_streams.contains_key(user));
        }
    }
}

/// The creation of a stream keeps the ledger in order.
pub proof fn lemma_create_stream_keeps_order(
    pre: LedgerView,
    deps: Deps,
    env: Env,
    info: MessageInfo,
    whitelisted_addresses: Option<Vec<(String, String)>>,
    start_time: u64,
    pay_per_month: u128,
    recipient: Seq<char>,
    remarks: Option<String>,
)
    requires
        pre.wf(),
    ensures
        keeps_order(
            pre,
            create_stream_outcome(
                pre,
                deps,
                env,
                info,
                whitelisted_addresses,
                start_time,
                pay_per_month,
                recipient,
                remarks,
            ),
        ),
{
    let outcome = create_stream_outcome(
        pre,
        deps,
        env,
        info,
        whitelisted_addresses,
        start_time,
        pay_per_month,
        recipient,
        remarks,
    );
    if outcome is Ok {
        let post = outcome->Ok_0.0;
        let id = pre.stream_indexer;
        let init = seq![(env.chain_id@, recipient)];
        lemma_whitelist_of_no_duplicates(init, pairs_or_none(whitelisted_addresses));
        assert(post.streams[id].wf());
        lemma_create_stream_keeps_index(pre, post, recipient);
        assert forall|x: u64| #[trigger] post.streams.contains_key(x) implies x
            < post.stream_indexer && post.streams[x].wf() by {
            if x != id {
                assert(pre.streams.contains_key(x));
            }
        }
        assert(!pre.streams.contains_key(id));
        assert(post.temp_outbound_info matches Some(record) ==> post.record_consistent(record)) by {
            if pre.temp_outbound_info is Some {
                assert(pre.record_consistent(pre.temp_outbound_info->Some_0));
            }
        }
        assert forall|a: u64| #[trigger]
            post.pending_outbound.contains_key(a) implies post.record_consistent(
            post.pending_outbound[a],
        ) by {
            assert(pre.pending_outbound.contains_key(a));
            assert(pre.record_consistent(pre.pending_outbound[a]));
        }
        assert(post.one_attempt_per_stream());
    }
}

/// The cancellation of a stream keeps the ledger in order.
pub proof fn lemma_cancel_stream_keeps_order(
    pre: LedgerView,
    deps: Deps,
    env: Env,
    info: MessageInfo,
    stream_id: u64,
    remarks: Option<String>,
)
    requires
        pre.wf(),
    ensures
        keeps_order(pre, cancel_stream_outcome(pre, deps, env, info, stream_id, remarks)),
{
    let outcome = cancel_stream_outcome(pre, deps, env, info, stream_id, remarks);
    if outcome is Ok {
        let post = outcome->Ok_0.0;
        lemma_cancel_stream_keeps_index(pre, post, stream_id);
        assert forall|x: u64| #[trigger] post.streams.contains_key(x) implies x
            < post.stream_indexer && post.streams[x].wf() by {
            assert(pre.streams.contains_key(x));
        }
        assert(post.temp_outbound_info matches Some(record) ==> post.record_consistent(record)) by {
            if pre.temp_outbound_info is Some {
                assert(pre.record_consistent(pre.temp_outbound_info->Some_0));
            }
        }
        assert forall|a: u64| #[trigger]
            post.pending_outbound.contains_key(a) implies post.record_consistent(
            post.pending_outbound[a],
        ) by {
            assert(pre.pending_outbound.contains_key(a));
            assert(pre.record_consistent(pre.pending_outbound[a]));
        }
        assert(post.one_attempt_per_stream());
    }
}

/// A state that differs from a consistent one in one stream only, which
/// keeps its in-flight flag and is settled no earlier, is consistent and
/// follows it.
pub proof fn lemma_stream_replaced_keeps_order(
    pre: LedgerView,
    post: LedgerView,
    stream_id: u64,
)
    requires
        pre.wf(),
        pre.streams.contains_key(stream_id),
        post == (LedgerView { streams: pre.streams.insert(stream_id, post.streams[stream_id]), ..pre }),
        post.streams[stream_id].wf(),
        post.streams[stream_id].recipient_owner == pre.streams[stream_id].recipient_owner,
        post.streams[stream_id].is_sending == pre.streams[stream_id].is_sending,
        pre.streams[stream_id].last_withdrawn_at <= post.streams[stream_id].last_withdrawn_at,
        pre.streams[stream_id].is_sending ==> post.streams[stream_id].last_withdrawn_at
            == pre.streams[stream_id].last_withdrawn_at,
    ensures
        post.wf(),
        follows(pre, post),
{
    lemma_index_kept(pre, post);
    assert forall|x: u64| #[trigger] post.streams.contains_key(x) implies x < post.stream_indexer
        && post.streams[x].wf() by {
        assert(pre.streams.contains_key(x));
    }
    assert(post.temp_outbound_info matches Some(record) ==> post.record_consistent(record)) by {
        if pre.temp_outbound_info is Some {
            assert(pre.record_consistent(pre.temp_outbound_info->Some_0));
        }
    }
    assert forall|a: u64| #[trigger]
        post.pending_outbound.contains_key(a) implies post.record_consistent(
        post.pending_outbound[a],
    ) by {
        assert(pre.record_consistent(pre.pending_outbound[a]));
    }
    assert(post.one_attempt_per_stream());
}

/// A withdrawal on the ledger's own chain keeps the ledger in order.
pub proof fn lemma_withdraw_on_router_chain_keeps_order(
    pre: LedgerView,
    deps: Deps,
    env: Env,
    stream_id: u64,
    max_amount: Option<u128>,
    recipient: Seq<char>,
    sender: Seq<char>,
    src_chain_id: Seq<char>,
)
    requires
        pre.wf(),
    ensures
        keeps_order(
            pre,
            withdraw_on_router_chain_outcome(
                pre,
                deps,
                env,
                stream_id,
                max_amount,
                recipient,
                sender,
                src_chain_id,
            ),
        ),
{
    let outcome = withdraw_on_router_chain_outcome(
        pre,
        deps,
        env,
        stream_id,
        max_amount,
        recipient,
        sender,
        src_chain_id,
    );
    if outcome is Ok {
        let post = outcome->Ok_0.0;
        let stream = pre.streams[stream_id];
        assert(pre.streams.contains_key(stream_id));
        law_settlement_bounds(
            stream.pay_per_sec,
            stream.last_withdrawn_at,
            env.block_time,
            max_amount,
        );
        lemma_stream_replaced_keeps_order(pre, post, stream_id);
    }
}

/// The dispatch of a payout to another chain keeps the ledger in order.
pub proof fn lemma_withdraw_on_other_chain_keeps_order(
    pre: LedgerView,
    deps: Deps,
    env: Env,
    stream_id: u64,
    max_amount: Option<u128>,
    recipient: Seq<char>,
    dst_chain_id: Seq<char>,
    sender: Seq<char>,
    src_chain_id: Seq<char>,
)
    requires
        pre.wf(),
    ensures
        keeps_order(
            pre,
            withdraw_on_other_chain_outcome(
                pre,
                deps,
                env,
                stream_id,
                max_amount,
                recipient,
                dst_chain_id,
                sender,
                src_chain_id,
            ),
        ),
{
    let outcome = withdraw_on_other_chain_outcome(
        pre,
        deps,
        env,
        stream_id,
        max_amount,
        recipient,
        dst_chain_id,
        sender,
        src_chain_id,
    );
    if outcome is Ok {
        let post = outcome->Ok_0.0;
        let stream = pre.streams[stream_id];
        assert(pre.streams.contains_key(stream_id));
        assert(!stream.is_sending);
        lemma_index_kept(pre, post);
        law_settlement_bounds(
            stream.pay_per_sec,
            stream.last_withdrawn_at,
            env.block_time,
            max_amount,
        );
        assert forall|x: u64| #[trigger] post.streams.contains_key(x) implies x
            < post.stream_indexer && post.streams[x].wf() by {
            assert(pre.streams.contains_key(x));
        }
        assert(post.record_consistent(post.temp_outbound_info->Some_0));
        assert forall|a: u64| #[trigger]
            post.pending_outbound.contains_key(a) implies post.record_consistent(
            post.pending_outbound[a],
        ) && post.pending_outbound[a].stream_id != stream_id by {
            assert(pre.record_consistent(pre.pending_outbound[a]));
        }
        assert(post.one_attempt_per_stream());
    }
}

/// A withdrawal keeps the ledger in order.
pub proof fn lemma_withdraw_salary_keeps_order(
    pre: LedgerView,
    deps: Deps,
    env: Env,
    stream_id: u64,
    max_amount: Option<u128>,
    recipient: Seq<char>,
    dst_chain_id: Option<Seq<char>>,
    sender: Seq<char>,
    src_chain_id: Seq<char>,
)
    requires
        pre.wf(),
    ensures
        keeps_order(
            pre,
            withdraw_salary_outcome(
                pre,
                deps,
                env,
                stream_id,
                max_amount,
                recipient,
                dst_chain_id,
                sender,
                src_chain_id,
            ),
        ),
{
    lemma_withdraw_on_router_chain_keeps_order(
        pre,
        deps,
        env,
        stream_id,
        max_amount,
        recipient,
        sender,
        src_chain_id,
    );
    if dst_chain_id is Some {
        lemma_withdraw_on_other_chain_keeps_order(
            pre,
            deps,
            env,
            stream_id,
            max_amount,
            recipient,
            dst_chain_id->Some_0,
            sender,
            src_chain_id,
        );
    }
}

/// An update of a whitelist keeps the ledger in order.
pub proof fn lemma_update_whitelist_keeps_order(
    pre: LedgerView,
    info: MessageInfo,
    stream_id: u64,
    address: Seq<char>,
    chain_id: Seq<char>,
    to: bool,
)
    requires
        pre.wf(),
    ensures
        keeps_order(
            pre,
            update_whitelist_address_outcome(pre, info, stream_id, address, chain_id, to),
        ),
{
    let outcome = update_whitelist_address_outcome(pre, info, stream_id, address, chain_id, to);
    if outcome is Ok {
        let post = outcome->Ok_0.0;
        let stream = pre.streams[stream_id];
        let entry = (chain_id, crate::abi::lowercase_of(address));
        assert(pre.streams.contains_key(stream_id));
        if to {
            lemma_with_value_no_duplicates(stream.whitelisted_addresses, entry);
        } else {
            lemma_without_no_duplicates(stream.whitelisted_addresses, entry);
        }
        lemma_stream_replaced_keeps_order(pre, post, stream_id);
    }
}

/// The settled time of a stream never moves backwards and no stream gets a
/// second withdrawal in flight, whatever is asked: a request that succeeds
/// on a consistent state leaves a consistent state that follows it.
pub proof fn law_execute_keeps_order(
    pre: LedgerView,
    deps: Deps,
    env: Env,
    info: MessageInfo,
    msg: ExecuteMsg,
)
    requires
        pre.wf(),
    ensures
        keeps_order(pre, handle_execute_outcome(pre, deps, env, info, msg)),
{
    match msg {
        ExecuteMsg::CreateStream {
            whitelisted_addresses,
            start_time,
            pay_per_month,
            recipient,
            remarks,
        } => {
            lemma_create_stream_keeps_order(
                pre,
                deps,
                env,
                info,
                whitelisted_addresses,
                start_time,
                pay_per_month,
                recipient@,
                remarks,
            );
        },
        ExecuteMsg::CancelStream { stream_id, remarks } => {
            lemma_cancel_stream_keeps_order(pre, deps, env, info, stream_id, remarks);
        },
        ExecuteMsg::WithdrawSalary { stream_id, recipient, dst_chain_id, max_amount } => {
            lemma_withdraw_salary_keeps_order(
                pre,
                deps,
                env,
                stream_id,
                max_amount,
                recipient@,
                crate::ledger::optional_text_view(dst_chain_id),
                info.sender@,
                env.chain_id@,
            );
        },
        ExecuteMsg::UpdateWhiteListAddress { stream_id, address, chain_id, to } => {
            lemma_update_whitelist_keeps_order(pre, info, stream_id, address@, chain_id@, to);
        },
        _ => {
            let outcome = handle_execute_outcome(pre, deps, env, info, msg);
            if outcome is Ok {
                lemma_streams_untouched_keeps_order(pre, outcome->Ok_0.0);
            }
        },
    }
}

/// A state that has the streams, the counter and the records of a
/// consistent one is consistent and follows it.
pub proof fn lemma_streams_untouched_keeps_order(pre: LedgerView, post: LedgerView)
    requires
        pre.wf(),
        post.streams == pre.streams,
        post.user_streams == pre.user_streams,
        post.stream_indexer == pre.stream_indexer,
        post.temp_outbound_info == pre.temp_outbound_info,
        post.pending_outbound == pre.pending_outbound,
    ensures
        post.wf(),
        follows(pre, post),
{
    lemma_index_kept(pre, post);
    assert forall|x: u64| #[trigger] post.streams.contains_key(x) implies x < post.stream_indexer
        && post.streams[x].wf() by {
        assert(pre.streams.contains_key(x));
    }
    assert(post.temp_outbound_info matches Some(record) ==> post.record_consistent(record)) by {
        if pre.temp_outbound_info is Some {
            assert(pre.record_consistent(pre.temp_outbound_info->Some_0));
        }
    }
    assert forall|a: u64| #[trigger]
        post.pending_outbound.contains_key(a) implies post.record_consistent(
        post.pending_outbound[a],
    ) by {
        assert(pre.record_consistent(pre.pending_outbound[a]));
    }
    assert(post.one_attempt_per_stream());
}

/// The roll-back of the current attempt keeps the ledger in order.
pub proof fn lemma_roll_back_keeps_order(pre: LedgerView)
    requires
        pre.wf(),
    ensures
        keeps_order(pre, handle_sub_message_failed_outcome(pre)),
{
    let outcome = handle_sub_message_failed_outcome(pre);
    if outcome is Ok {
        let post = outcome->Ok_0.0;
        let record = pre.temp_outbound_info->Some_0;
        assert(pre.record_consistent(record));
        lemma_index_kept(pre, post);
        assert forall|x: u64| #[trigger] post.streams.contains_key(x) implies x
            < post.stream_indexer && post.streams[x].wf() by {
            assert(pre.streams.contains_key(x));
        }
        assert forall|a: u64| #[trigger]
            post.pending_outbound.contains_key(a) implies post.record_consistent(
            post.pending_outbound[a],
        ) by {
            assert(pre.record_consistent(pre.pending_outbound[a]));
            assert(pre.pending_outbound[a].stream_id != record.stream_id);
        }
        assert(post.one_attempt_per_stream());
    }
}

/// The settled time of a stream never moves backwards and no stream gets a
/// second withdrawal in flight when a dispatch reports back: a report that
/// is taken in on a consistent state leaves a consistent state that follows
/// it.
pub proof fn law_reply_keeps_order(pre: LedgerView, msg: Reply)
    requires
        pre.wf(),
    ensures
        keeps_order(pre, handle_reply_outcome(pre, msg)),
{
    let outcome = handle_reply_outcome(pre, msg);
    lemma_roll_back_keeps_order(pre);
    if outcome is Ok {
        let post = outcome->Ok_0.0;
        match msg.result {
            SubMsgResult::Dispatched { data: Some(answer) } => {
                let record = pre.temp_outbound_info->Some_0;
                let rid = answer.request_identifier;
                assert(pre.record_consistent(record));
                lemma_index_kept(pre, post);
                assert forall|x: u64| #[trigger] post.streams.contains_key(x) implies x
                    < post.stream_indexer && post.streams[x].wf() by {
                    assert(pre.streams.contains_key(x));
                }
                assert forall|a: u64| #[trigger]
                    post.pending_outbound.contains_key(a) implies post.record_consistent(
                    post.pending_outbound[a],
                ) by {
                    if a != rid {
                        assert(pre.pending_outbound.contains_key(a));
                        assert(pre.record_consistent(pre.pending_outbound[a]));
                    }
                }
                assert forall|a: u64, b: u64|
                    post.pending_outbound.contains_key(a) && post.pending_outbound.contains_key(b)
                        && a != b implies #[trigger] post.pending_outbound[a].stream_id
                    != #[trigger] post.pending_outbound[b].stream_id by {
                    if a != rid && b != rid {
                        assert(pre.pending_outbound.contains_key(a));
                        assert(pre.pending_outbound.contains_key(b));
                        assert(pre.pending_outbound[a].stream_id
                            != pre.pending_outbound[b].stream_id);
                    } else if a == rid {
                        assert(pre.pending_outbound.contains_key(b));
                        assert(pre.pending_outbound[b].stream_id != record.stream_id);
                    } else {
                        assert(pre.pending_outbound.contains_key(a));
                        assert(pre.pending_outbound[a].stream_id != record.stream_id);
                    }
                }
                assert(post.one_attempt_per_stream());
            },
            _ => {},
        }
    }
}

/// An acknowledgement keeps the ledger in order.
pub proof fn lemma_ack_keeps_order(pre: LedgerView, exec_flag: bool, request_identifier: u64)
    requires
        pre.wf(),
    ensures
        keeps_order(pre, handle_sudo_ack_outcome(pre, exec_flag, request_identifier)),
{
    let outcome = handle_sudo_ack_outcome(pre, exec_flag, request_identifier);
    if outcome is Ok {
        let post = outcome->Ok_0.0;
        let record = pre.pending_outbound[request_identifier];
        assert(pre.pending_outbound.contains_key(request_identifier));
        assert(pre.record_consistent(record));
        assert(pre.streams.contains_key(record.stream_id));
        lemma_index_kept(pre, post);
        assert forall|x: u64| #[trigger] post.streams.contains_key(x) implies x
            < post.stream_indexer && post.streams[x].wf() by {
            assert(pre.streams.contains_key(x));
        }
        assert(post.temp_outbound_info matches Some(slot) ==> post.record_consistent(slot)) by {
            if pre.temp_outbound_info is Some {
                assert(pre.record_consistent(pre.temp_outbound_info->Some_0));
                assert(pre.temp_outbound_info->Some_0.stream_id != record.stream_id);
            }
        }
        assert forall|a: u64| #[trigger]
            post.pending_outbound.contains_key(a) implies post.record_consistent(
            post.pending_outbound[a],
        ) by {
            assert(pre.pending_outbound.contains_key(a));
            assert(pre.record_consistent(pre.pending_outbound[a]));
            assert(pre.pending_outbound[a].stream_id != record.stream_id);
        }
        assert forall|a: u64, b: u64|
            post.pending_outbound.contains_key(a) && post.pending_outbound.contains_key(b) && a
                != b implies #[trigger] post.pending_outbound[a].stream_id
            != #[trigger] post.pending_outbound[b].stream_id by {
            assert(pre.pending_outbound.contains_key(a));
            assert(pre.pending_outbound.contains_key(b));
            assert(pre.pending_outbound[a].stream_id != pre.pending_outbound[b].stream_id);
        }
        assert(post.one_attempt_per_stream());
    }
}

/// The settled time of a stream never moves backwards and no stream gets a
/// second withdrawal in flight when the messaging layer delivers: a
/// delivery that is taken in on a consistent state leaves a consistent
/// state that follows it.
pub proof fn law_sudo_keeps_order(pre: LedgerView, deps: Deps, env: Env, msg: SudoMsg)
    requires
        pre.wf(),
    ensures
        keeps_order(pre, handle_sudo_outcome(pre, deps, env, msg)),
{
    match msg {
        SudoMsg::HandleIReceive { request_sender, src_chain_id, request_identifier, payload } => {
            let outcome = handle_sudo_request_outcome(
                pre,
                deps,
                env,
                request_sender@,
                src_chain_id@,
                payload@,
            );
            if outcome is Ok {
                let request = crate::sudo::decoded_request(payload@)->Some_0;
                let sender = crate::abi::address_text(
                    request.sender,
                    pre.chain_types[src_chain_id@],
                )->Some_0;
                lemma_withdraw_salary_keeps_order(
                    pre,
                    deps,
                    env,
                    request.stream_id,
                    Some(request.max_amount),
                    crate::abi::lowercase_of(request.recipient),
                    Some(request.dst_chain_id),
                    sender,
                    src_chain_id@,
                );
            }
        },
        SudoMsg::HandleIAck { request_identifier, exec_flag, exec_data, refund_amount } => {
            lemma_ack_keeps_order(pre, exec_flag, request_identifier);
        },
    }
}

/// Moving to this version keeps the ledger in order.
pub proof fn law_migrate_keeps_order(pre: LedgerView)
    requires
        pre.wf(),
    ensures
        keeps_order(pre, migrate_outcome(pre)),
{
    let outcome = migrate_outcome(pre);
    if outcome is Ok {
        lemma_streams_untouched_keeps_order(pre, outcome->Ok_0.0);
    }
}

/// Setting up a ledger that holds no stream, no user index and no record
/// of a withdrawal gives a consistent state.
pub proof fn law_instantiate_gives_order(pre: LedgerView, msg: InstantiateMsg)
    requires
        pre.streams == Map::<u64, crate::stream::StreamView>::empty(),
        pre.user_streams == Map::<Seq<char>, Seq<u64>>::empty(),
        pre.pending_outbound == Map::<u64, crate::stream::OutboundInfo>::empty(),
        pre.temp_outbound_info is None,
    ensures
        instantiate_outcome(pre, msg) is Ok,
        instantiate_outcome(pre, msg)->Ok_0.0.wf(),
{
}

/// `follows` carries over: what follows a consistent state that follows
/// another, follows that one too.
pub proof fn lemma_follows_transitive(a: LedgerView, b: LedgerView, c: LedgerView)
    requires
        a.wf(),
        b.wf(),
        follows(a, b),
        follows(b, c),
    ensures
        follows(a, c),
{
    assert forall|id: u64| #[trigger]
        c.streams.contains_key(id) && id < a.stream_indexer implies a.streams.contains_key(id) by {
        assert(b.streams.contains_key(id));
    }
    assert forall|id: u64|
        a.streams.contains_key(id) && c.streams.contains_key(id) implies a.streams[id].last_withdrawn_at
        <= (#[trigger] c.streams[id]).last_withdrawn_at by {
        assert(id < a.stream_indexer);
        assert(b.streams.contains_key(id));
        assert(a.streams[id].last_withdrawn_at <= b.streams[id].last_withdrawn_at);
    }
}

/// One call on a ledger that has been set up.
pub enum Call {
    /// A request.
    Execute { deps: Deps, env: Env, info: MessageInfo, msg: ExecuteMsg },
    /// A report on a dispatch.
    Reply { msg: Reply },
    /// A delivery of the messaging layer.
    Sudo { deps: Deps, env: Env, msg: SudoMsg },
    /// A move to this version.
    Migrate,
}

/// What a call does.
pub open spec fn call_outcome(pre: LedgerView, call: Call) -> Outcome {
    match call {
        Call::Execute { deps, env, info, msg } => handle_execute_outcome(pre, deps, env, info, msg),
        Call::Reply { msg } => handle_reply_outcome(pre, msg),
        Call::Sudo { deps, env, msg } => handle_sudo_outcome(pre, deps, env, msg),
        Call::Migrate => migrate_outcome(pre),
    }
}

/// The state after a call: the new state where the call succeeds, the old
/// one where it fails.
pub open spec fn state_after(pre: LedgerView, call: Call) -> LedgerView {
    match call_outcome(pre, call) {
        Ok((post, _)) => post,
        Err(_) => pre,
    }
}

/// The state after a sequence of calls.
pub open spec fn state_after_all(pre: LedgerView, calls: Seq<Call>) -> LedgerView
    decreases calls.len(),
{
    if calls.len() == 0 {
        pre
    } else {
        state_after(state_after_all(pre, calls.drop_last()), calls.last())
    }
}

/// A call on a consistent state leaves a consistent state that follows it.
pub proof fn law_call_keeps_order(pre: LedgerView, call: Call)
    requires
        pre.wf(),
    ensures
        state_after(pre, call).wf(),
        follows(pre, state_after(pre, call)),
{
    match call {
        Call::Execute { deps, env, info, msg } => {
            law_execute_keeps_order(pre, deps, env, info, msg);
        },
        Call::Reply { msg } => {
            law_reply_keeps_order(pre, msg);
        },
        Call::Sudo { deps, env, msg } => {
            law_sudo_keeps_order(pre, deps, env, msg);
        },
        Call::Migrate => {
            law_migrate_keeps_order(pre);
        },
    }
}

/// Across any sequence of calls on a consistent state, the state stays
/// consistent, no stream that exists before and after is settled to an
/// earlier time, and at no point do two withdrawals in flight name the same
/// stream.
pub proof fn law_any_sequence_keeps_order(pre: LedgerView, calls: Seq<Call>)
    requires
        pre.wf(),
    ensures
        state_after_all(pre, calls).wf(),
        state_after_all(pre, calls).one_attempt_per_stream(),
        pre.settled_no_later_than(state_after_all(pre, calls)),
        follows(pre, state_after_all(pre, calls)),
    decreases calls.len(),
{
    if calls.len() > 0 {
        let mid = state_after_all(pre, calls.drop_last());
        law_any_sequence_keeps_order(pre, calls.drop_last());
        law_call_keeps_order(mid, calls.last());
        lemma_follows_transitive(pre, mid, state_after(mid, calls.last()));
    }
}

/// A stream that was just created accrues from its start: at any later
/// time for which the amount is defined, it owes its rate per second times
/// the seconds since its start.
pub proof fn law_created_stream_accrues_from_start(
    pre: LedgerView,
    deps: Deps,
    env: Env,
    info: MessageInfo,
    whitelisted_addresses: Option<Vec<(String, String)>>,
    start_time: u64,
    pay_per_month: u128,
    recipient: Seq<char>,
    remarks: Option<String>,
    later: Env,
)
    requires
        create_stream_outcome(
            pre,
            deps,
            env,
            info,
            whitelisted_addresses,
            start_time,
            pay_per_month,
            recipient,
            remarks,
        ) is Ok,
        accrual_defined(
            rate_per_second(pay_per_month) as u128,
            effective_start(start_time, env.block_time),
            later.block_time,
        ),
    ensures
        accumulated_amount(
            create_stream_outcome(
                pre,
                deps,
                env,
                info,
                whitelisted_addresses,
                start_time,
                pay_per_month,
                recipient,
                remarks,
            )->Ok_0.0,
            later,
            pre.stream_indexer,
        ) == Ok::<u128, crate::errors::LedgerError>(
            (rate_per_second(pay_per_month) * (later.block_time - effective_start(
                start_time,
                env.block_time,
            ))) as u128,
        ),
{
}

/// After a withdrawal on the ledger's own chain that no cap cut short, the
/// stream owes nothing at the same block time.
pub proof fn law_local_withdrawal_settles_everything(
    pre: LedgerView,
    deps: Deps,
    env: Env,
    stream_id: u64,
    max_amount: Option<u128>,
    recipient: Seq<char>,
    sender: Seq<char>,
    src_chain_id: Seq<char>,
)
    requires
        withdraw_on_router_chain_outcome(
            pre,
            deps,
            env,
            stream_id,
            max_amount,
            recipient,
            sender,
            src_chain_id,
        ) is Ok,
        !cap_applies(
            accrued(
                pre.streams[stream_id].pay_per_sec,
                pre.streams[stream_id].last_withdrawn_at,
                env.block_time,
            ),
            max_amount,
        ),
    ensures
        accumulated_amount(
            withdraw_on_router_chain_outcome(
                pre,
                deps,
                env,
                stream_id,
                max_amount,
                recipient,
                sender,
                src_chain_id,
            )->Ok_0.0,
            env,
            stream_id,
        ) == Ok::<u128, crate::errors::LedgerError>(0),
{
}

/// A withdrawal that is in flight blocks the next: while a stream is marked
/// as sending, every withdrawal by a party that may withdraw fails as
/// already pending, and leaves the state as it is.
pub proof fn law_in_flight_blocks_withdrawal(
    pre: LedgerView,
    deps: Deps,
    env: Env,
    stream_id: u64,
    max_amount: Option<u128>,
    recipient: Seq<char>,
    dst_chain_id: Seq<char>,
    sender: Seq<char>,
    src_chain_id: Seq<char>,
)
    requires
        pre.streams.contains_key(stream_id),
        pre.streams[stream_id].is_sending,
        pre.streams[stream_id].may_withdraw(src_chain_id, sender),
    ensures
        withdraw_on_other_chain_outcome(
            pre,
            deps,
            env,
            stream_id,
            max_amount,
            recipient,
            dst_chain_id,
            sender,
            src_chain_id,
        ) == Err::<(LedgerView, crate::response::ResponseView), crate::errors::LedgerError>(
            crate::errors::LedgerError::AlreadyPending,
        ),
        deps.api.accepts(recipient) ==> withdraw_on_router_chain_outcome(
            pre,
            deps,
            env,
            stream_id,
            max_amount,
            recipient,
            sender,
            src_chain_id,
        ) == Err::<(LedgerView, crate::response::ResponseView), crate::errors::LedgerError>(
            crate::errors::LedgerError::AlreadyPending,
        ),
{
}

/// On a consistent state the user index never fails an operation: a
/// cancellation does not miss the owner's entry, and the streams of an
/// account are all found.
pub proof fn law_consistent_index_is_never_missing(
    pre: LedgerView,
    deps: Deps,
    env: Env,
    info: MessageInfo,
    stream_id: u64,
    remarks: Option<String>,
    address: Seq<char>,
)
    requires
        pre.wf(),
    ensures
        cancel_stream_outcome(pre, deps, env, info, stream_id, remarks) != Err::<
            (LedgerView, crate::response::ResponseView),
            crate::errors::LedgerError,
        >(crate::errors::LedgerError::UserIndexMissing),
        user_streams_info(pre, deps, address) != Err::<
            Seq<crate::stream::StreamView>,
            crate::errors::LedgerError,
        >(crate::errors::LedgerError::IndexedStreamMissing),
{
    if pre.streams.contains_key(stream_id) {
        assert(pre.user_streams.contains_key(pre.streams[stream_id].recipient_owner));
    }
    if user_stream_ids(pre, deps, address) is Ok {
        let ids = user_stream_ids(pre, deps, address)->Ok_0;
        assert forall|i: int| 0 <= i < ids.len() implies pre.streams.contains_key(
            #[trigger] ids[i],
        ) by {
            assert(pre.streams.contains_key(pre.user_streams[address][i]));
        }
    }
}

/// An id is never used again: a stream id that was handed out and whose
/// stream is gone stays without a stream across any sequence of calls.
pub proof fn law_ids_are_never_reused(pre: LedgerView, calls: Seq<Call>, id: u64)
    requires
        pre.wf(),
        id < pre.stream_indexer,
        !pre.streams.contains_key(id),
    ensures
        !state_after_all(pre, calls).streams.contains_key(id),
{
    law_any_sequence_keeps_order(pre, calls);
}

/// A dispatch that is rolled back can be retried: the roll-back succeeds and
/// leaves the streams as they were before the dispatch, with no attempt on
/// record, so that every later withdrawal, on the ledger's own chain or to
/// another, does exactly what it would have done had the dispatch never
/// been made, from the same settled time.
pub proof fn law_rolled_back_dispatch_can_be_retried(
    pre: LedgerView,
    deps: Deps,
    env: Env,
    stream_id: u64,
    max_amount: Option<u128>,
    recipient: Seq<char>,
    dst_chain_id: Seq<char>,
    sender: Seq<char>,
    src_chain_id: Seq<char>,
    later_deps: Deps,
    later_env: Env,
    later_stream_id: u64,
    later_max_amount: Option<u128>,
    later_recipient: Seq<char>,
    later_dst_chain_id: Option<Seq<char>>,
    later_sender: Seq<char>,
    later_src_chain_id: Seq<char>,
)
    requires
        withdraw_on_other_chain_outcome(
            pre,
            deps,
            env,
            stream_id,
            max_amount,
            recipient,
            dst_chain_id,
            sender,
            src_chain_id,
        ) is Ok,
    ensures
        ({
            let dispatched = withdraw_on_other_chain_outcome(
                pre,
                deps,
                env,
                stream_id,
                max_amount,
                recipient,
                dst_chain_id,
                sender,
                src_chain_id,
            )->Ok_0.0;
            let rolled_back = handle_sub_message_failed_outcome(dispatched);
            &&& rolled_back is Ok
            &&& rolled_back->Ok_0.0 == (LedgerView { temp_outbound_info: None, ..pre })
            &&& withdraw_salary_outcome(
                rolled_back->Ok_0.0,
                later_deps,
                later_env,
                later_stream_id,
                later_max_amount,
                later_recipient,
                later_dst_chain_id,
                later_sender,
                later_src_chain_id,
            ) == withdraw_salary_outcome(
                LedgerView { temp_outbound_info: None, ..pre },
                later_deps,
                later_env,
                later_stream_id,
                later_max_amount,
                later_recipient,
                later_dst_chain_id,
                later_sender,
                later_src_chain_id,
            )
            &&& crate::withdrawal::before_withdraw_result(
                rolled_back->Ok_0.0,
                later_deps,
                later_env,
                later_stream_id,
                later_max_amount,
                later_sender,
                later_src_chain_id,
            ) == crate::withdrawal::before_withdraw_result(
                pre,
                later_deps,
                later_env,
                later_stream_id,
                later_max_amount,
                later_sender,
                later_src_chain_id,
            )
        }),
{
    let dispatched = withdraw_on_other_chain_outcome(
        pre,
        deps,
        env,
        stream_id,
        max_amount,
        recipient,
        dst_chain_id,
        sender,
        src_chain_id,
    )->Ok_0.0;
    assert(pre.streams.contains_key(stream_id));
    assert(!pre.streams[stream_id].is_sending);
    assert(dispatched.streams.contains_key(stream_id));
    let rolled_back = handle_sub_message_failed_outcome(dispatched)->Ok_0.0;
    assert(pre.streams[stream_id].with_sending(true).with_sending(false) == pre.streams[stream_id]);
    assert(rolled_back.streams =~= pre.streams);
}

} // verus!
