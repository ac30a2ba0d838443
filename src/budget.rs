//! The wait budget: a duration, given as whole seconds and sub-second
//! nanoseconds, turned into the whole milliseconds that `poll` takes.

use vstd::prelude::*;

verus! {

/// The largest budget that `poll` can take, in milliseconds.
pub open spec fn max_budget() -> int {
    i32::MAX as int
}

/// The budget for a duration of `secs` seconds and `nanos` nanoseconds:
/// the duration in whole milliseconds (nanoseconds rounded down), clamped
/// to the largest budget.
pub open spec fn budget_ms(secs: u64, nanos: u32) -> int {
    let ms = secs as int * 1000 + nanos as int / 1_000_000;
    if ms > max_budget() {
        max_budget()
    } else {
        ms
    }
}

/// Converts a duration of `secs` seconds and `nanos` nanoseconds into whole
/// milliseconds. The seconds are clamped to `i32::MAX`, multiplied by 1000
/// and increased by the whole milliseconds in `nanos`, each step saturating
/// at `i32::MAX`: the conversion never fails and never wraps.
pub fn duration_to_ms(secs: u64, nanos: u32) -> (ms: i32)
    ensures
        ms == budget_ms(secs, nanos),
        ms >= 0,
{
    let whole: i32 = if secs < i32::MAX as u64 {
        secs as i32
    } else {
        i32::MAX
    };
    let sub: i32 = (nanos / 1_000_000) as i32;
    let scaled: i32 = match whole.checked_mul(1000) {
        Some(v) => v,
        None => i32::MAX,
    };
    match scaled.checked_add(sub) {
        Some(v) => v,
        None => i32::MAX,
    }
}

/// A duration is shorter than another when it has fewer whole seconds, or
/// as many and fewer nanoseconds.
pub open spec fn shorter(secs1: u64, nanos1: u32, secs2: u64, nanos2: u32) -> bool {
    secs1 < secs2 || (secs1 == secs2 && nanos1 < nanos2)
}

/// Any duration of more than `i32::MAX` whole seconds converts to the
/// largest budget, never to a wrapped or negative one.
pub proof fn lemma_budget_saturates(secs: u64, nanos: u32)
    requires
        secs > i32::MAX,
    ensures
        budget_ms(secs, nanos) == max_budget(),
{
    assert(secs as int * 1000 > max_budget()) by (nonlinear_arith)
        requires
            secs > i32::MAX,
    ;
}

/// The conversion keeps order: a shorter duration never gets a larger
/// budget than a longer one.
pub proof fn lemma_budget_monotonic(secs1: u64, nanos1: u32, secs2: u64, nanos2: u32)
    requires
        nanos1 < 1_000_000_000,
        nanos2 < 1_000_000_000,
        shorter(secs1, nanos1, secs2, nanos2),
    ensures
        budget_ms(secs1, nanos1) <= budget_ms(secs2, nanos2),
{
    let ms1 = secs1 as int * 1000 + nanos1 as int / 1_000_000;
    let ms2 = secs2 as int * 1000 + nanos2 as int / 1_000_000;
    if secs1 < secs2 {
        assert(secs1 as int * 1000 + 1000 <= secs2 as int * 1000) by (nonlinear_arith)
            requires
                secs1 < secs2,
        ;
    } else {
        assert(nanos1 as int / 1_000_000 <= nanos2 as int / 1_000_000) by (nonlinear_arith)
            requires
                nanos1 < nanos2,
        ;
    }
    assert(ms1 <= ms2);
}

} // verus!
