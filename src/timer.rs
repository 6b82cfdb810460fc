//! The time-driven uniform: a value that grows at a fixed rate with the time
//! elapsed on the windowing library's clock.
use vstd::prelude::*;
use vstd::arithmetic::div_mod::lemma_div_is_ordered;
use crate::setup::GResources;

verus! {

/// Growth of the uniform per second of elapsed time, in millionths
/// (1.1 units per second).
pub const TIMER_RATE: u128 = 1_100_000;

/// The uniform in millionths after `ticks` ticks of a clock that runs at
/// `ticks_per_second`.
pub open spec fn timer_value(ticks: u64, ticks_per_second: u64) -> int
    recommends
        ticks_per_second > 0,
{
    (ticks as int * TIMER_RATE as int) / (ticks_per_second as int)
}

/// The uniform in millionths after `ticks` ticks at `ticks_per_second`.
pub fn timer_micros(ticks: u64, ticks_per_second: u64) -> (r: u128)
    requires
        ticks_per_second > 0,
    ensures
        r == timer_value(ticks, ticks_per_second),
{
    assert(ticks as int * TIMER_RATE as int <= u128::MAX) by (nonlinear_arith)
        requires
            ticks <= u64::MAX,
    ;
    (ticks as u128 * TIMER_RATE) / (ticks_per_second as u128)
}

/// Sets the bundle's uniform from the clock; nothing else changes.
pub fn update_timer(res: &mut GResources, elapsed_ticks: u64, ticks_per_second: u64)
    requires
        ticks_per_second > 0,
    ensures
        *final(res) == (GResources {
            timer_micros: timer_value(elapsed_ticks, ticks_per_second) as u128,
            ..*old(res)
        }),
{
    res.timer_micros = timer_micros(elapsed_ticks, ticks_per_second);
}

/// On one clock, a later reading never gives a smaller uniform.
pub proof fn lemma_timer_monotone(earlier: u64, later: u64, ticks_per_second: u64)
    requires
        ticks_per_second > 0,
        earlier <= later,
    ensures
        timer_value(earlier, ticks_per_second) <= timer_value(later, ticks_per_second),
{
    assert(earlier as int * TIMER_RATE as int <= later as int * TIMER_RATE as int)
        by (nonlinear_arith)
        requires
            earlier <= later,
    ;
    lemma_div_is_ordered(
        earlier as int * TIMER_RATE as int,
        later as int * TIMER_RATE as int,
        ticks_per_second as int,
    );
}

/// Two consecutive frames on one clock: the second frame's uniform is the
/// value for its own reading alone, and is at least the first frame's.
pub proof fn lemma_consecutive_frames(
    first: GResources,
    second: GResources,
    third: GResources,
    earlier: u64,
    later: u64,
    ticks_per_second: u64,
)
    requires
        ticks_per_second > 0,
        earlier <= later,
        second == (GResources {
            timer_micros: timer_value(earlier, ticks_per_second) as u128,
            ..first
        }),
        third == (GResources {
            timer_micros: timer_value(later, ticks_per_second) as u128,
            ..second
        }),
    ensures
        second.timer_micros <= third.timer_micros,
        third.timer_micros == timer_value(later, ticks_per_second),
{
    lemma_timer_bounded(earlier, ticks_per_second);
    lemma_timer_bounded(later, ticks_per_second);
    lemma_timer_monotone(earlier, later, ticks_per_second);
}

proof fn lemma_timer_bounded(ticks: u64, ticks_per_second: u64)
    requires
        ticks_per_second > 0,
    ensures
        0 <= timer_value(ticks, ticks_per_second) <= u128::MAX,
{
    let n = ticks as int * TIMER_RATE as int;
    assert(0 <= n <= u128::MAX) by (nonlinear_arith)
        requires
            n == ticks as int * TIMER_RATE as int,
            0 <= ticks <= u64::MAX,
    ;
    lemma_div_is_ordered(0, n, ticks_per_second as int);
    vstd::arithmetic::div_mod::lemma_div_is_ordered_by_denominator(n, 1, ticks_per_second as int);
}

} // verus!
