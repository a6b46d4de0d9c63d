//! Accrual arithmetic: what a stream owes for the time that has passed, and
//! how a cap on the payout shortens the settled interval.

use vstd::prelude::*;

verus! {

/// The number of seconds by which a monthly rate is divided.
pub const SECONDS_PER_MONTH: u128 = 2_592_000;

/// What a withdrawal settles: the amount, and the interval of seconds it pays for.
#[derive(Clone, Copy, Debug, PartialEq, Eq, Structural)]
pub struct WithDrawResponse {
    pub total_amount_to_be_paid: u128,
    pub paid_from_sec: u64,
    pub paid_to_sec: u64,
}

/// The per-second rate of a monthly rate: the quotient, rounded down.
pub open spec fn rate_per_second(pay_per_month: u128) -> int {
    pay_per_month as int / 2_592_000
}

/// The amount owed for the seconds from `from_time` to `to_time` at `rate`.
pub open spec fn accrued(rate: u128, from_time: u64, to_time: u64) -> int {
    rate as int * (to_time as int - from_time as int)
}

/// Whether the accrual over the interval can be computed: time does not run
/// backwards and the product fits the amount type.
pub open spec fn accrual_defined(rate: u128, from_time: u64, to_time: u64) -> bool {
    from_time <= to_time && accrued(rate, from_time, to_time) <= u128::MAX
}

/// Whether a cap applies to an accrued amount: it is set, non-zero and exceeded.
pub open spec fn cap_applies(owed: int, max_amount: Option<u128>) -> bool {
    max_amount matches Some(cap) && cap != 0 && owed > cap
}

/// The number of whole seconds that a cap pays for at `rate`.
pub open spec fn capped_seconds(rate: u128, cap: u128) -> int {
    cap as int / rate as int
}

/// The settlement of a stream at `now`: everything accrued since
/// `last_withdrawn_at`, or, where the cap is exceeded, the whole seconds that
/// the cap pays for.
pub open spec fn settlement(
    rate: u128,
    last_withdrawn_at: u64,
    now: u64,
    max_amount: Option<u128>,
) -> WithDrawResponse {
    let owed = accrued(rate, last_withdrawn_at, now);
    if cap_applies(owed, max_amount) {
        let k = capped_seconds(rate, max_amount->Some_0);
        WithDrawResponse {
            total_amount_to_be_paid: (k * rate) as u128,
            paid_from_sec: last_withdrawn_at,
            paid_to_sec: (last_withdrawn_at + k) as u64,
        }
    } else {
        WithDrawResponse {
            total_amount_to_be_paid: owed as u128,
            paid_from_sec: last_withdrawn_at,
            paid_to_sec: now,
        }
    }
}

/// Derives the per-second rate from a monthly rate.
pub fn pay_per_sec(pay_per_month: u128) -> (rate: u128)
    ensures
        rate == rate_per_second(pay_per_month),
        rate > 0 <==> pay_per_month >= SECONDS_PER_MONTH,
{
    pay_per_month / SECONDS_PER_MONTH
}

/// The amount accrued from `from_time` to `to_time` at `rate`, or `None` where
/// `to_time` lies before `from_time` or the product does not fit.
pub fn accrual(rate: u128, from_time: u64, to_time: u64) -> (owed: Option<u128>)
    ensures
        owed is Some <==> accrual_defined(rate, from_time, to_time),
        owed matches Some(a) ==> a == accrued(rate, from_time, to_time),
{
    if to_time < from_time {
        return None;
    }
    let delta: u64 = to_time - from_time;
    rate.checked_mul(delta as u128)
}

/// Settles a stream at `now` under an optional cap. `None` exactly where the
/// accrual itself is not defined.
pub fn settle(rate: u128, last_withdrawn_at: u64, now: u64, max_amount: Option<u128>) -> (out:
    Option<WithDrawResponse>)
    ensures
        out is Some <==> accrual_defined(rate, last_withdrawn_at, now),
        out matches Some(w) ==> w == settlement(rate, last_withdrawn_at, now, max_amount),
{
    let owed: u128 = match accrual(rate, last_withdrawn_at, now) {
        Some(a) => a,
        None => {
            return None;
        },
    };
    let cap: u128 = match max_amount {
        Some(c) => c,
        None => 0,
    };
    if owed > cap && cap != 0 {
        proof {
            lemma_cap_bounds(rate, last_withdrawn_at, now, cap);
        }
        let k: u128 = cap / rate;
        let paid: u128 = k * rate;
        let k64: u64 = k as u64;
        Some(
            WithDrawResponse {
                total_amount_to_be_paid: paid,
                paid_from_sec: last_withdrawn_at,
                paid_to_sec: last_withdrawn_at + k64,
            },
        )
    } else {
        Some(
            WithDrawResponse {
                total_amount_to_be_paid: owed,
                paid_from_sec: last_withdrawn_at,
                paid_to_sec: now,
            },
        )
    }
}

/// Where a non-zero cap is exceeded, the rate is positive and the capped
/// seconds `k` satisfy `0 <= k < now - last`, `k * rate <= cap < (k + 1) * rate`.
pub proof fn lemma_cap_bounds(rate: u128, last_withdrawn_at: u64, now: u64, cap: u128)
    requires
        last_withdrawn_at <= now,
        cap != 0,
        accrued(rate, last_withdrawn_at, now) > cap,
    ensures
        rate > 0,
        0 <= capped_seconds(rate, cap) < now - last_withdrawn_at,
        capped_seconds(rate, cap) * rate <= cap,
        cap < (capped_seconds(rate, cap) + 1) * rate,
{
    let r = rate as int;
    let c = cap as int;
    let d = now as int - last_withdrawn_at as int;
    assert(r > 0) by (nonlinear_arith)
        requires
            r >= 0,
            d >= 0,
            r * d > c,
            c > 0,
    ;
    let k = c / r;
    assert(0 <= k && k * r <= c && c < (k + 1) * r) by (nonlinear_arith)
        requires
            r > 0,
            c >= 0,
            k == c / r,
    ;
    assert(k < d) by (nonlinear_arith)
        requires
            r > 0,
            k * r <= c,
            r * d > c,
    ;
}

/// Accrual is exact: it is the product of the rate and the elapsed seconds,
/// and the rate loses to the monthly rate only what integer division drops.
pub proof fn law_accrual_exact(pay_per_month: u128, from_time: u64, to_time: u64)
    requires
        from_time <= to_time,
    ensures
        accrued(rate_per_second(pay_per_month) as u128, from_time, to_time) == rate_per_second(
            pay_per_month,
        ) * (to_time - from_time),
        rate_per_second(pay_per_month) * 2_592_000 <= pay_per_month,
        pay_per_month < (rate_per_second(pay_per_month) + 1) * 2_592_000,
{
}

/// Under an exceeded non-zero cap the settled amount stays within the cap, is
/// a whole number `k` of seconds at the rate, moves the settled time forward
/// by exactly `k`, and `k` is the largest such number.
pub proof fn law_cap(rate: u128, last_withdrawn_at: u64, now: u64, cap: u128)
    requires
        accrual_defined(rate, last_withdrawn_at, now),
        cap > 0,
        accrued(rate, last_withdrawn_at, now) > cap,
    ensures
        ({
            let w = settlement(rate, last_withdrawn_at, now, Some(cap));
            let k = capped_seconds(rate, cap);
            &&& k >= 0
            &&& w.total_amount_to_be_paid <= cap
            &&& w.total_amount_to_be_paid == rate * k
            &&& w.paid_from_sec == last_withdrawn_at
            &&& w.paid_to_sec == last_withdrawn_at + k
            &&& w.paid_to_sec < now
            &&& rate * (k + 1) > cap
        }),
{
    lemma_cap_bounds(rate, last_withdrawn_at, now, cap);
    let k = capped_seconds(rate, cap);
    assert(rate * k == k * rate) by (nonlinear_arith);
    assert(rate * (k + 1) == (k + 1) * rate) by (nonlinear_arith);
}

/// A settlement never moves the settled time backwards nor past `now`, and
/// never pays more than has accrued.
pub proof fn law_settlement_bounds(
    rate: u128,
    last_withdrawn_at: u64,
    now: u64,
    max_amount: Option<u128>,
)
    requires
        accrual_defined(rate, last_withdrawn_at, now),
    ensures
        ({
            let w = settlement(rate, last_withdrawn_at, now, max_amount);
            &&& last_withdrawn_at <= w.paid_to_sec <= now
            &&& w.total_amount_to_be_paid == accrued(rate, last_withdrawn_at, w.paid_to_sec)
            &&& w.total_amount_to_be_paid <= accrued(rate, last_withdrawn_at, now)
        }),
{
    let owed = accrued(rate, last_withdrawn_at, now);
    if cap_applies(owed, max_amount) {
        let cap = max_amount->Some_0;
        lemma_cap_bounds(rate, last_withdrawn_at, now, cap);
        let k = capped_seconds(rate, cap);
        assert(rate * k == k * rate) by (nonlinear_arith);
    }
}

/// After a settlement without an effective cap nothing is accrued at the same
/// instant: the amount owed from the new settled time to `now` is zero.
pub proof fn law_settled_then_nothing_accrued(
    rate: u128,
    last_withdrawn_at: u64,
    now: u64,
    max_amount: Option<u128>,
)
    requires
        accrual_defined(rate, last_withdrawn_at, now),
        !cap_applies(accrued(rate, last_withdrawn_at, now), max_amount),
    ensures
        settlement(rate, last_withdrawn_at, now, max_amount).paid_to_sec == now,
        accrued(rate, settlement(rate, last_withdrawn_at, now, max_amount).paid_to_sec, now) == 0,
{
}

} // verus!
