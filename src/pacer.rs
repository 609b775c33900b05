//! Frame pacing: the period that a target rate allows, and the sleep that
//! fills the rest of that period after an iteration.
use vstd::prelude::*;

verus! {

pub const NANOS_PER_SECOND: u64 = 1_000_000_000;

/// Target capture rate, in frames per second.
pub const DEFAULT_FRAME_RATE: u64 = 24;

/// The shortest whole number of nanoseconds that is at least `1 / rate` seconds.
pub open spec fn period_of(rate: nat) -> nat
    recommends
        rate > 0,
{
    let n = NANOS_PER_SECOND as nat;
    (n / rate) + if n % rate == 0 { 0nat } else { 1nat }
}

/// What is left of `period` after `elapsed`, and nothing once it is used up.
pub open spec fn residual(period: nat, elapsed: nat) -> nat {
    if elapsed < period {
        (period - elapsed) as nat
    } else {
        0
    }
}

/// Length of one iteration period, in nanoseconds, for `rate` frames per second.
pub fn frame_period_nanos(rate: u64) -> (p: u64)
    requires
        rate > 0,
    ensures
        p as nat == period_of(rate as nat),
{
    let whole = NANOS_PER_SECOND / rate;
    if NANOS_PER_SECOND % rate == 0 {
        whole
    } else {
        whole + 1
    }
}

/// How long to sleep after an iteration that took `elapsed` nanoseconds.
pub fn pacing_sleep_nanos(period: u64, elapsed: u64) -> (s: u64)
    ensures
        s as nat == residual(period as nat, elapsed as nat),
{
    if elapsed < period {
        period - elapsed
    } else {
        0
    }
}

/// An iteration together with its pacing sleep lasts at least `1 / rate`
/// seconds, and the sleep never exceeds the period.
pub proof fn lemma_pacing_spacing(rate: nat, elapsed: nat)
    requires
        rate > 0,
    ensures
        residual(period_of(rate), elapsed) <= period_of(rate),
        elapsed + residual(period_of(rate), elapsed) >= period_of(rate),
        (elapsed + residual(period_of(rate), elapsed)) * rate >= NANOS_PER_SECOND,
{
    let n = NANOS_PER_SECOND as int;
    let q = n / (rate as int);
    let m = n % (rate as int);
    assert(q * rate + m == n && 0 <= m < rate) by (nonlinear_arith)
        requires
            q == n / (rate as int),
            m == n % (rate as int),
            rate > 0,
    ;
    let p = period_of(rate) as int;
    assert(p * rate >= n) by (nonlinear_arith)
        requires
            p == q + (if m == 0 { 0int } else { 1int }),
            q * rate + m == n,
            0 <= m < rate,
    ;
    let total = elapsed + residual(period_of(rate), elapsed);
    assert(total >= p);
    assert(total * rate >= p * rate) by (nonlinear_arith)
        requires
            total >= p,
            rate > 0,
    ;
}

} // verus!
