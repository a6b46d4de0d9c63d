//! A salary-streaming ledger: streams that accrue at a fixed rate per second,
//! whitelist-gated withdrawals, and the cross-chain withdrawal protocol.
//!
//! The state lives in a [`ledger::Ledger`]. Every operation takes the state,
//! what the host answered ([`host::Deps`]), the block ([`host::Env`]) and
//! the caller ([`host::MessageInfo`]), and either changes the state and
//! hands back a [`response::Response`], or fails and leaves the state as it
//! was. What each operation does is a function of these values, written
//! down next to it; [`laws`] holds what follows for every sequence of calls.

pub mod abi;
pub mod accrual;
pub mod contract;
pub mod errors;
pub mod execution;
pub mod host;
pub mod inquiry;
pub mod laws;
pub mod ledger;
pub mod modifiers;
pub mod msg;
pub mod query;
pub mod reply;
pub mod response;
pub mod seqs;
pub mod stream;
pub mod strmap;
pub mod sudo;
pub mod whitelist;
pub mod withdrawal;
