//! Laws of the blink schedule: the asymmetric duty cycle, the drift bound,
//! the collapse of stalls to a single flip, the no-op of early ticks, and
//! termination of the run loop on shutdown.

use vstd::prelude::*;
use vstd::arithmetic::div_mod::lemma_mod_multiples_basic;
use crate::timing::{
    BlinkState, Controller, LoopEvent, required_dwell_ns, run_from, run_spec, snapped_forward,
    toggled,
};

verus! {

/// The snapped-forward timestamp stays on the grid of whole intervals above
/// the old timestamp (the returned value is the number of steps taken) and
/// ends at most one interval behind `now_ns`.
proof fn lemma_snap_bounds(last_ns: int, interval_ns: int, now_ns: int) -> (k: int)
    requires
        interval_ns > 0,
        last_ns <= now_ns,
    ensures
        k >= 0,
        snapped_forward(last_ns, interval_ns, now_ns) == last_ns + k * interval_ns,
        last_ns <= snapped_forward(last_ns, interval_ns, now_ns),
        snapped_forward(last_ns, interval_ns, now_ns) <= now_ns,
        now_ns - snapped_forward(last_ns, interval_ns, now_ns) <= interval_ns,
    decreases now_ns - last_ns,
{
    if now_ns - last_ns > interval_ns {
        let k0 = lemma_snap_bounds(last_ns + interval_ns, interval_ns, now_ns);
        assert((last_ns + interval_ns) + k0 * interval_ns == last_ns + (k0 + 1) * interval_ns)
            by (nonlinear_arith);
        k0 + 1
    } else {
        assert(last_ns + 0 * interval_ns == last_ns);
        0
    }
}

/// When `now_ns` falls strictly between `k` and `k + 1` intervals after the
/// old timestamp, snapping forward lands exactly `k` intervals ahead.
proof fn lemma_snapped_forward_exact(last_ns: int, interval_ns: int, now_ns: int, k: int)
    requires
        interval_ns > 0,
        k >= 0,
        last_ns + k * interval_ns < now_ns,
        now_ns <= last_ns + (k + 1) * interval_ns,
    ensures
        snapped_forward(last_ns, interval_ns, now_ns) == last_ns + k * interval_ns,
    decreases k,
{
    if k > 0 {
        assert(now_ns - last_ns > interval_ns) by (nonlinear_arith)
            requires
                k >= 1,
                interval_ns > 0,
                last_ns + k * interval_ns < now_ns,
        ;
        assert((last_ns + interval_ns) + (k - 1) * interval_ns == last_ns + k * interval_ns)
            by (nonlinear_arith);
        assert((last_ns + interval_ns) + ((k - 1) + 1) * interval_ns == last_ns + (k + 1)
            * interval_ns) by (nonlinear_arith);
        lemma_snapped_forward_exact(last_ns + interval_ns, interval_ns, now_ns, k - 1);
    } else {
        assert(last_ns + k * interval_ns == last_ns) by (nonlinear_arith)
            requires
                k == 0,
        ;
        assert(now_ns <= last_ns + interval_ns) by (nonlinear_arith)
            requires
                k == 0,
                now_ns <= last_ns + (k + 1) * interval_ns,
        ;
    }
}

/// Asymmetric duty cycle: the dwell required before leaving the opaque phase
/// is exactly three times the dwell required before leaving the transparent
/// phase, whatever the interval.
pub proof fn lemma_asymmetric_dwell(interval_ns: u64)
    ensures
        required_dwell_ns(BlinkState::Opaque, interval_ns) == 3 * required_dwell_ns(
            BlinkState::Transparent,
            interval_ns,
        ),
{
}

/// One full blink cycle on the schedule grid: starting opaque on a grid
/// point, with the first tick falling within one interval after the opaque
/// dwell has elapsed and the next within one interval after the transparent
/// dwell, the opaque phase occupies exactly three grid intervals and the
/// transparent phase exactly one — a 3:1 duty cycle.
pub proof fn lemma_duty_cycle_one_cycle(c: Controller, t1: u64, t2: u64)
    requires
        c.wf(),
        c.state == BlinkState::Opaque,
        c.last_flip_ns + 3 * c.interval_ns < t1,
        t1 <= c.last_flip_ns + 4 * c.interval_ns,
        c.next(t1).last_flip_ns + c.interval_ns < t2,
        t2 <= c.next(t1).last_flip_ns + 2 * c.interval_ns,
    ensures
        c.flip_due(t1),
        c.next(t1).state == BlinkState::Transparent,
        c.next(t1).last_flip_ns == c.last_flip_ns + 3 * c.interval_ns,
        c.next(t1).flip_due(t2),
        c.next(t1).next(t2).state == BlinkState::Opaque,
        c.next(t1).next(t2).last_flip_ns == c.last_flip_ns + 4 * c.interval_ns,
{
    lemma_snapped_forward_exact(c.last_flip_ns as int, c.interval_ns as int, t1 as int, 3);
    let mid = c.next(t1);
    assert(mid.last_flip_ns == c.last_flip_ns + 3 * c.interval_ns);
    lemma_snapped_forward_exact(mid.last_flip_ns as int, mid.interval_ns as int, t2 as int, 1);
}

/// Drift bound: right after any flip the corrected timestamp never lags the
/// clock by more than one interval, and lags it by strictly less whenever
/// the elapsed time was not an exact multiple of the interval.
pub proof fn lemma_drift_bound(c: Controller, now_ns: u64)
    requires
        c.wf(),
        c.last_flip_ns <= now_ns,
        c.flip_due(now_ns),
    ensures
        c.next(now_ns).last_flip_ns <= now_ns,
        now_ns - c.next(now_ns).last_flip_ns <= c.interval_ns,
        (now_ns - c.last_flip_ns) % (c.interval_ns as int) != 0 ==> now_ns - c.next(
            now_ns,
        ).last_flip_ns < c.interval_ns,
{
    let last = c.last_flip_ns as int;
    let ivl = c.interval_ns as int;
    let k = lemma_snap_bounds(last, ivl, now_ns as int);
    let r = snapped_forward(last, ivl, now_ns as int);
    assert(c.next(now_ns).last_flip_ns == r);
    if now_ns - r == ivl {
        assert(now_ns - last == (k + 1) * ivl) by (nonlinear_arith)
            requires
                r == last + k * ivl,
                now_ns - r == ivl,
        ;
        lemma_mod_multiples_basic(k + 1, ivl);
    }
}

/// A stall never queues flips: however long the clock has advanced between
/// two ticks (here at least ten intervals), the next tick performs exactly
/// one toggle and catches the timestamp up to within one interval of now.
pub proof fn lemma_stall_single_flip(c: Controller, now_ns: u64)
    requires
        c.wf(),
        c.last_flip_ns <= now_ns,
        now_ns - c.last_flip_ns >= 10 * c.interval_ns,
    ensures
        c.flip_due(now_ns),
        c.next(now_ns).state == toggled(c.state),
        c.next(now_ns).last_flip_ns <= now_ns,
        now_ns - c.next(now_ns).last_flip_ns <= c.interval_ns,
{
    let k = lemma_snap_bounds(c.last_flip_ns as int, c.interval_ns as int, now_ns as int);
}

/// A tick before the required dwell has elapsed changes nothing and requests
/// no opacity update.
pub proof fn lemma_early_tick_is_noop(c: Controller, now_ns: u64)
    requires
        !c.flip_due(now_ns),
    ensures
        c.next(now_ns) == c,
        c.tick_action(now_ns) is None,
{
}

proof fn lemma_run_from_stops(c: Controller, events: Seq<LoopEvent>, j: int, i: int)
    requires
        0 <= j <= i < events.len(),
        events[i].shutdown,
        forall|m: int| j <= m < i ==> !events[m].shutdown,
    ensures
        run_from(c, events, j).1.len() == i - j,
    decreases i - j,
{
    if j < i {
        lemma_run_from_stops(c.next(events[j].now_ns), events, j + 1, i);
    }
}

/// Shutdown terminates the loop: once the flag is observed set, the run
/// emits no further action — its output holds exactly one entry for each
/// iteration before the first shutdown observation.
pub proof fn lemma_shutdown_terminates(c: Controller, events: Seq<LoopEvent>, i: int)
    requires
        0 <= i < events.len(),
        events[i].shutdown,
        forall|j: int| 0 <= j < i ==> !events[j].shutdown,
    ensures
        run_spec(c, events).1.len() == i,
{
    lemma_run_from_stops(c, events, 0, i);
}

} // verus!

