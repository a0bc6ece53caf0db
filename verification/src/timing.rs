//! The timing probe: a sleep that ends early by a trusted outside clock was
//! tampered with.
//!
//! The clock is asked before and after a local sleep of `n` seconds. The
//! samples are whole seconds of the outside clock; the local clock is never
//! read.

use vstd::prelude::*;
use crate::result::ProbeResult;

verus! {

/// The seconds that passed between two samples of the outside clock.
pub open spec fn elapsed(before: u32, after: u32) -> int {
    after - before
}

/// The answer of the timing probe: `Indeterminate` where a sample is
/// missing, `Positive` where fewer than `n` seconds passed, else `Negative`.
pub open spec fn timing_verdict(before: Option<u32>, after: Option<u32>, n: u32) -> ProbeResult {
    match (before, after) {
        (Some(b), Some(a)) => ProbeResult::of_flag(elapsed(b, a) < n),
        _ => ProbeResult::Indeterminate,
    }
}

/// The length of the local sleep in milliseconds.
pub open spec fn sleep_millis(n: u32) -> u64 {
    (n * 1000) as u64
}

/// The timing probe on two samples that were taken beforehand; `None` stands
/// for a query of the clock that failed.
pub fn timing_probe(before: Option<u32>, after: Option<u32>, n: u32) -> (r: ProbeResult)
    ensures
        r == timing_verdict(before, after, n),
{
    match (before, after) {
        (Some(b), Some(a)) => {
            if a < b {
                ProbeResult::Positive
            } else {
                ProbeResult::from_flag(a - b < n)
            }
        },
        _ => ProbeResult::Indeterminate,
    }
}

/// Whether `before` and `after` are samples that a run of `secure_sleep` can
/// have taken from `clock`: the second is asked for only where the first was
/// had.
pub open spec fn is_timing<C: Fn() -> Option<u32>>(
    clock: C,
    before: Option<u32>,
    after: Option<u32>,
) -> bool {
    &&& clock.ensures((), before)
    &&& before is Some ==> clock.ensures((), after)
    &&& before is None ==> after is None
}

/// Sleeps for `n` seconds through `sleep`, which takes milliseconds, and
/// times the sleep by `clock`: one query, then the sleep of `n` seconds, then
/// the second query. Where the first query of the clock fails, there is no
/// sleep and no second query.
pub fn secure_sleep<C: Fn() -> Option<u32>, S: Fn(u64) -> ()>(n: u32, clock: C, sleep: S) -> (r:
    ProbeResult)
    requires
        clock.requires(()),
        sleep.requires((sleep_millis(n),)),
    ensures
        exists|before: Option<u32>, after: Option<u32>|
            is_timing(clock, before, after) && r == #[trigger] timing_verdict(before, after, n)
                && (before is Some ==> sleep.ensures((sleep_millis(n),), ())),
{
    let before = clock();
    match before {
        None => {
            proof {
                assert(is_timing(clock, before, None));
                assert(timing_verdict(before, None, n) == ProbeResult::Indeterminate);
            }
            ProbeResult::Indeterminate
        },
        Some(_) => {
            let millis: u64 = 1000u64 * (n as u64);
            sleep(millis);
            let after = clock();
            proof {
                assert(millis == sleep_millis(n));
                assert(sleep.ensures((sleep_millis(n),), ()));
                assert(is_timing(clock, before, after));
            }
            timing_probe(before, after, n)
        },
    }
}

} // verus!
