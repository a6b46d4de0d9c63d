//! What a call knows of its surroundings: the block, the caller and the
//! attached funds, and what the host answered when asked about addresses,
//! balances and gas prices.

use crate::errors::LedgerError;
use crate::strmap::StrMap;
use vstd::prelude::*;
use vstd::string::*;

verus! {

/// The denomination of the native coin.
pub const NATIVE_DENOM: &'static str = "route";

/// An amount of one denomination.
#[derive(Clone, Debug, PartialEq)]
pub struct Coin {
    pub denom: String,
    pub amount: u128,
}

/// The caller of an operation and the funds attached to the call.
#[derive(Clone, Debug, PartialEq)]
pub struct MessageInfo {
    pub sender: String,
    pub funds: Vec<Coin>,
}

/// The block in which a call runs, and the ledger's own account.
#[derive(Clone, Debug, PartialEq)]
pub struct Env {
    /// Seconds of the block's time.
    pub block_time: u64,
    /// The id of the chain that the ledger runs on.
    pub chain_id: String,
    /// The account that holds the ledger's funds.
    pub contract_address: String,
}

/// The host's address validator, as the addresses it accepted for this call.
#[derive(Clone, Debug, PartialEq)]
pub struct Api {
    pub valid_addresses: Vec<String>,
}

/// The host's answers to queries: native-coin balances by account, and the
/// oracle's gas prices by chain.
#[derive(Clone, Debug, PartialEq)]
pub struct Querier {
    pub route_balances: StrMap<u128>,
    pub gas_prices: StrMap<u64>,
}

/// What the host provides to a call besides the stored state.
#[derive(Clone, Debug, PartialEq)]
pub struct Deps {
    pub api: Api,
    pub querier: Querier,
}

/// The oracle's gas price for a chain.
#[derive(Clone, Copy, Debug, PartialEq, Eq, Structural)]
pub struct GasPriceResponse {
    pub gas_price: u64,
}

impl Api {
    /// Whether the host accepted `address` as an account reference.
    pub open spec fn accepts(&self, address: Seq<char>) -> bool {
        exists|i: int| 0 <= i < self.valid_addresses@.len() && self.valid_addresses@[i]@ == address
    }

    /// Whether the host accepted `address` as an account reference.
    pub fn addr_validate(&self, address: &String) -> (valid: bool)
        ensures
            valid == self.accepts(address@),
    {
        let mut i: usize = 0;
        while i < self.valid_addresses.len()
            invariant
                i <= self.valid_addresses.len(),
                forall|j: int| 0 <= j < i ==> self.valid_addresses@[j]@ != address@,
            decreases self.valid_addresses.len() - i,
        {
            if self.valid_addresses[i] == *address {
                return true;
            }
            i = i + 1;
        }
        false
    }
}

/// The amount that a call carries as funds: `Some` exactly where the funds
/// are one coin of the native denomination with a positive amount.
pub open spec fn route_fund(info: MessageInfo) -> Option<u128> {
    if info.funds@.len() == 1 && info.funds@[0].denom@ == NATIVE_DENOM@ && info.funds@[0].amount
        > 0 {
        Some(info.funds@[0].amount)
    } else {
        None
    }
}

/// The native-coin balance that the host reports for `address`; zero where
/// it reports none.
pub open spec fn route_balance_of(deps: Deps, address: Seq<char>) -> u128 {
    if deps.querier.route_balances@.contains_key(address) {
        deps.querier.route_balances@[address]
    } else {
        0
    }
}

/// Checks that the call carries exactly one positive amount of the native
/// coin, and gives that amount.
pub fn check_valid_route_fund(info: &MessageInfo) -> (res: Result<u128, LedgerError>)
    ensures
        res == match route_fund(*info) {
            Some(amount) => Ok::<u128, LedgerError>(amount),
            None => Err(LedgerError::InvalidFund),
        },
{
    let native = String::from_str(NATIVE_DENOM);
    if info.funds.len() == 1 && info.funds[0].denom == native && info.funds[0].amount > 0 {
        return Ok(info.funds[0].amount);
    }
    Err(LedgerError::InvalidFund)
}

/// The native-coin balance of `address`, zero where the host knows none.
pub fn get_route_balance(deps: &Deps, address: &String) -> (res: Result<u128, LedgerError>)
    ensures
        res == Ok::<u128, LedgerError>(route_balance_of(*deps, address@)),
{
    match deps.querier.route_balances.get(address) {
        Some(balance) => Ok(*balance),
        None => Ok(0),
    }
}

/// The oracle's gas price for `chain_id`.
pub fn get_oracle_gas_price(deps: &Deps, chain_id: &String) -> (res: Result<
    GasPriceResponse,
    LedgerError,
>)
    ensures
        res == if deps.querier.gas_prices@.contains_key(chain_id@) {
            Ok::<GasPriceResponse, LedgerError>(
                GasPriceResponse { gas_price: deps.querier.gas_prices@[chain_id@] },
            )
        } else {
            Err(LedgerError::GasPriceUnavailable)
        },
{
    match deps.querier.gas_prices.get(chain_id) {
        Some(price) => Ok(GasPriceResponse { gas_price: *price }),
        None => Err(LedgerError::GasPriceUnavailable),
    }
}

} // verus!
