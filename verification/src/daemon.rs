//! The daemon's schedule: how long it waits before the next tick, after a
//! clean tick and after a run of failed ones.
use vstd::prelude::*;

verus! {

/// The longest wait after failed ticks, in seconds, unless the poll interval
/// itself is longer.
pub const MAX_RETRY_SECONDS: u64 = 3600;

/// The ceiling of the backoff for a poll interval.
pub open spec fn retry_cap(poll: nat) -> nat {
    if poll > MAX_RETRY_SECONDS {
        poll
    } else {
        MAX_RETRY_SECONDS as nat
    }
}

/// The wait before the next tick: the poll interval after a clean tick,
/// doubled for each consecutive failed tick, never beyond `retry_cap`.
pub open spec fn retry_delay(poll: nat, failures: nat) -> nat
    decreases failures,
{
    if failures == 0 {
        poll
    } else {
        let d = 2 * retry_delay(poll, (failures - 1) as nat);
        if d > retry_cap(poll) {
            retry_cap(poll)
        } else {
            d
        }
    }
}

proof fn lemma_retry_delay_bounds(poll: nat, failures: nat)
    ensures
        poll <= retry_delay(poll, failures) <= retry_cap(poll),
    decreases failures,
{
    if failures > 0 {
        lemma_retry_delay_bounds(poll, (failures - 1) as nat);
    }
}

/// `retry_delay` for a poll interval in seconds.
pub fn next_tick_delay(poll_interval_seconds: u64, consecutive_failures: u32) -> (r: u64)
    ensures
        r == retry_delay(poll_interval_seconds as nat, consecutive_failures as nat),
{
    let cap: u64 = if poll_interval_seconds > MAX_RETRY_SECONDS {
        poll_interval_seconds
    } else {
        MAX_RETRY_SECONDS
    };
    let mut delay = poll_interval_seconds;
    let mut k: u32 = 0;
    while k < consecutive_failures
        invariant
            k <= consecutive_failures,
            cap == retry_cap(poll_interval_seconds as nat),
            delay == retry_delay(poll_interval_seconds as nat, k as nat),
        decreases consecutive_failures - k,
    {
        proof {
            lemma_retry_delay_bounds(poll_interval_seconds as nat, k as nat);
        }
        delay = if delay > cap / 2 {
            cap
        } else {
            let doubled = delay * 2;
            if doubled > cap {
                cap
            } else {
                doubled
            }
        };
        k = k + 1;
    }
    delay
}

/// The daemon never waits less than the poll interval, nor more than the
/// cap, and waits no shorter after one more failure.
pub proof fn law_retry_delay_is_capped_and_growing(poll: nat, failures: nat)
    ensures
        poll <= retry_delay(poll, failures) <= retry_cap(poll),
        retry_delay(poll, failures) <= retry_delay(poll, failures + 1),
        retry_delay(poll, 0) == poll,
{
    lemma_retry_delay_bounds(poll, failures);
    lemma_retry_delay_bounds(poll, failures + 1);
}

/// The count of consecutive failed ticks after a tick: reset by a clean tick,
/// one more after a failed one (held at the largest count).
pub open spec fn failures_after_tick(failures: u32, tick_ok: bool) -> u32 {
    if tick_ok {
        0
    } else if failures == u32::MAX {
        failures
    } else {
        (failures + 1) as u32
    }
}

pub fn failures_after(failures: u32, tick_ok: bool) -> (r: u32)
    ensures
        r == failures_after_tick(failures, tick_ok),
{
    if tick_ok {
        0
    } else if failures == u32::MAX {
        failures
    } else {
        failures + 1
    }
}

/// The span of the jitter for a wait of `delay` seconds: a tenth of it, in
/// milliseconds, held at `u64::MAX`.
pub open spec fn jitter_span(delay: u64) -> int {
    if delay * 100 > u64::MAX {
        u64::MAX as int
    } else {
        delay * 100
    }
}

/// The jitter added to a wait: the clock's sub-second nanoseconds reduced
/// modulo one more than the span, so at most the span; none when the span
/// is empty.
pub open spec fn jitter_of(delay: u64, clock_nanos: u32) -> int {
    if jitter_span(delay) == 0 {
        0
    } else {
        clock_nanos as int % (jitter_span(delay) + 1)
    }
}

pub fn jitter_millis(delay_seconds: u64, clock_nanos: u32) -> (r: u64)
    ensures
        r == jitter_of(delay_seconds, clock_nanos),
        r <= jitter_span(delay_seconds),
{
    let span: u64 = if delay_seconds > u64::MAX / 100 {
        u64::MAX
    } else {
        delay_seconds * 100
    };
    assert(span == jitter_span(delay_seconds));
    let n: u64 = clock_nanos as u64;
    if span == 0 {
        0
    } else if n <= span {
        proof {
            vstd::arithmetic::div_mod::lemma_small_mod(n as nat, (span + 1) as nat);
        }
        n
    } else {
        proof {
            vstd::arithmetic::div_mod::lemma_mod_bound(n as int, span + 1);
        }
        n % (span + 1)
    }
}

/// What the daemon does after a tick: it always runs another one, after
/// `delay_seconds` and `jitter_millis` more, with `failures` consecutive
/// failed ticks behind it.
pub struct NextTick {
    pub failures: u32,
    pub delay_seconds: u64,
    pub jitter_millis: u64,
}

/// The daemon's step after a tick, given whether it went through and the
/// clock's sub-second nanoseconds.
pub fn after_tick(poll_interval_seconds: u64, failures: u32, tick_ok: bool, clock_nanos: u32) -> (r: NextTick)
    ensures
        r.failures == failures_after_tick(failures, tick_ok),
        r.delay_seconds == retry_delay(poll_interval_seconds as nat, r.failures as nat),
        r.jitter_millis == jitter_of(r.delay_seconds, clock_nanos),
{
    let next = failures_after(failures, tick_ok);
    let delay = next_tick_delay(poll_interval_seconds, next);
    NextTick { failures: next, delay_seconds: delay, jitter_millis: jitter_millis(delay, clock_nanos) }
}

/// A failed tick does not stop the daemon: the next tick comes after at
/// least the poll interval and at most the cap, plus a jitter of at most a
/// tenth of that wait; after a clean tick the count of failures starts over
/// and the wait is the poll interval again.
pub proof fn law_daemon_keeps_running_after_failures(poll: u64, failures: u32, clock_nanos: u32)
    ensures
        ({
            let f = failures_after_tick(failures, false);
            let d = retry_delay(poll as nat, f as nat);
            &&& f >= failures
            &&& poll <= d <= retry_cap(poll as nat)
            &&& 0 <= jitter_of(d as u64, clock_nanos) <= jitter_span(d as u64)
        }),
        failures_after_tick(failures, true) == 0,
        retry_delay(poll as nat, failures_after_tick(failures, true) as nat) == poll,
{
    let f = failures_after_tick(failures, false);
    lemma_retry_delay_bounds(poll as nat, f as nat);
    let d = retry_delay(poll as nat, f as nat);
    if jitter_span(d as u64) != 0 {
        vstd::arithmetic::div_mod::lemma_mod_bound(clock_nanos as int, jitter_span(d as u64) + 1);
    }
}

} // verus!
