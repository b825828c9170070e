//! The BFI timing controller: flip decisions and drift correction.

use vstd::prelude::*;

verus! {

/// Visibility of the black overlay: fully opaque (screen dark) or fully
/// transparent (content visible).
#[derive(Clone, Copy, PartialEq, Eq, Structural, Debug)]
pub enum BlinkState {
    Opaque,
    Transparent,
}

/// Half-period of the blink schedule in whole nanoseconds, computed once
/// from the target flip frequency of 239.1 Hz and fixed for the process
/// lifetime.
pub const TARGET_INTERVAL_NS: u64 = 4182350;

/// The opacity applied to the overlay for each state: fully opaque or fully
/// transparent.
pub open spec fn alpha_of(state: BlinkState) -> u8 {
    match state {
        BlinkState::Opaque => 255,
        BlinkState::Transparent => 0,
    }
}

/// The other blink state.
pub open spec fn toggled(state: BlinkState) -> BlinkState {
    match state {
        BlinkState::Opaque => BlinkState::Transparent,
        BlinkState::Transparent => BlinkState::Opaque,
    }
}

/// Dwell required before leaving `state`: the opaque phase is held for three
/// intervals, the transparent phase for one, giving the asymmetric duty
/// cycle of the blink schedule.
pub open spec fn required_dwell_ns(state: BlinkState, interval_ns: u64) -> int {
    match state {
        BlinkState::Opaque => 3 * interval_ns,
        BlinkState::Transparent => interval_ns as int,
    }
}

/// The last-flip timestamp advanced toward `now_ns` in whole intervals,
/// staying on the time grid laid down at startup, until it lags `now_ns` by
/// at most one interval.
pub open spec fn snapped_forward(last_ns: int, interval_ns: int, now_ns: int) -> int
    decreases now_ns - last_ns,
{
    if interval_ns > 0 && now_ns - last_ns > interval_ns {
        snapped_forward(last_ns + interval_ns, interval_ns, now_ns)
    } else {
        last_ns
    }
}

/// What the run loop observes on one iteration: the shutdown flag as read at
/// the top of the loop, and the wall-clock time at the vblank tick that
/// follows when the loop goes on.
#[derive(Clone, Copy, PartialEq, Eq, Structural, Debug)]
pub struct LoopEvent {
    pub shutdown: bool,
    pub now_ns: u64,
}

/// The decision of one run-loop iteration: stop because shutdown was
/// observed, or go on, with the opacity change the tick requested (if any).
#[derive(Clone, Copy, PartialEq, Eq, Debug)]
pub enum StepOutcome {
    Stop,
    Continue(Option<u8>),
}

/// The BFI timing controller: tracks the current blink state and the
/// wall-clock time of the last flip (kept on a fixed grid of intervals), and
/// decides on each vblank tick whether to flip.
pub struct Controller {
    /// Half-period of the blink schedule in nanoseconds; immutable.
    pub interval_ns: u64,
    /// Wall-clock time of the last flip (or of its last grid correction).
    pub last_flip_ns: u64,
    /// Current overlay visibility.
    pub state: BlinkState,
}

impl Controller {
    /// Well-formed controllers have a positive interval.
    pub open spec fn wf(self) -> bool {
        self.interval_ns > 0
    }

    /// Whether a flip is due at time `now_ns`: the time elapsed since the
    /// last flip has reached the dwell required by the current state.
    pub open spec fn flip_due(self, now_ns: u64) -> bool {
        now_ns - self.last_flip_ns >= required_dwell_ns(self.state, self.interval_ns)
    }

    /// The controller after a tick at `now_ns`: unchanged when no flip is
    /// due; otherwise the last-flip timestamp snaps forward on the grid and
    /// the state toggles.
    pub open spec fn next(self, now_ns: u64) -> Controller {
        if self.flip_due(now_ns) {
            Controller {
                interval_ns: self.interval_ns,
                last_flip_ns: snapped_forward(
                    self.last_flip_ns as int,
                    self.interval_ns as int,
                    now_ns as int,
                ) as u64,
                state: toggled(self.state),
            }
        } else {
            self
        }
    }

    /// The opacity change a tick at `now_ns` requests of the overlay: none
    /// when no flip is due, otherwise the alpha of the new state.
    pub open spec fn tick_action(self, now_ns: u64) -> Option<u8> {
        if self.flip_due(now_ns) {
            Some(alpha_of(toggled(self.state)))
        } else {
            None
        }
    }

    /// A fresh controller: opaque, with its schedule anchored at `start_ns`.
    pub fn new(interval_ns: u64, start_ns: u64) -> (c: Controller)
        requires
            interval_ns > 0,
        ensures
            c.wf(),
            c.interval_ns == interval_ns,
            c.last_flip_ns == start_ns,
            c.state == BlinkState::Opaque,
    {
        Controller { interval_ns, last_flip_ns: start_ns, state: BlinkState::Opaque }
    }

    /// Handle one vblank tick at wall-clock time `now_ns`: flip if the dwell
    /// for the current state has elapsed, first snapping the last-flip
    /// timestamp forward on the grid. Returns the opacity to apply to the
    /// overlay, or `None` when nothing changed.
    pub fn handle_tick(&mut self, now_ns: u64) -> (flip: Option<u8>)
        requires
            old(self).wf(),
            old(self).last_flip_ns <= now_ns,
        ensures
            *final(self) == old(self).next(now_ns),
            flip == old(self).tick_action(now_ns),
            final(self).last_flip_ns <= now_ns,
    {
        let elapsed: u64 = now_ns - self.last_flip_ns;
        let due: bool = match self.state {
            BlinkState::Opaque => (elapsed as u128) >= 3 * (self.interval_ns as u128),
            BlinkState::Transparent => elapsed >= self.interval_ns,
        };
        if !due {
            return None;
        }
        while now_ns - self.last_flip_ns > self.interval_ns
            invariant
                self.interval_ns == old(self).interval_ns,
                self.state == old(self).state,
                self.interval_ns > 0,
                self.last_flip_ns <= now_ns,
                snapped_forward(self.last_flip_ns as int, self.interval_ns as int, now_ns as int)
                    == snapped_forward(
                    old(self).last_flip_ns as int,
                    self.interval_ns as int,
                    now_ns as int,
                ),
            decreases now_ns - self.last_flip_ns,
        {
            self.last_flip_ns = self.last_flip_ns + self.interval_ns;
        }
        self.state = match self.state {
            BlinkState::Opaque => BlinkState::Transparent,
            BlinkState::Transparent => BlinkState::Opaque,
        };
        let alpha: u8 = match self.state {
            BlinkState::Opaque => 255,
            BlinkState::Transparent => 0,
        };
        Some(alpha)
    }

    /// One iteration of the run loop: when `shutdown` was observed the loop
    /// stops before touching anything; otherwise the tick is handled.
    pub fn step(&mut self, shutdown: bool, now_ns: u64) -> (outcome: StepOutcome)
        requires
            old(self).wf(),
            old(self).last_flip_ns <= now_ns,
        ensures
            shutdown ==> *final(self) == *old(self) && outcome == StepOutcome::Stop,
            !shutdown ==> *final(self) == old(self).next(now_ns) && outcome
                == StepOutcome::Continue(old(self).tick_action(now_ns)),
            final(self).last_flip_ns <= now_ns,
    {
        if shutdown {
            StepOutcome::Stop
        } else {
            let flip = self.handle_tick(now_ns);
            StepOutcome::Continue(flip)
        }
    }

    /// Drive the controller through a whole sequence of loop iterations,
    /// stopping at the first observed shutdown, and collect the opacity
    /// change (if any) requested by each iteration that ran. This is the
    /// run loop as the controller sees it; the host program performs the
    /// vblank waits and clock reads that produce the events.
    pub fn run(&mut self, events: &Vec<LoopEvent>) -> (actions: Vec<Option<u8>>)
        requires
            old(self).wf(),
            forall|i: int, j: int|
                0 <= i <= j < events@.len() ==> events@[i].now_ns <= events@[j].now_ns,
            events@.len() > 0 ==> old(self).last_flip_ns <= events@[0].now_ns,
        ensures
            *final(self) == run_spec(*old(self), events@).0,
            actions@ == run_spec(*old(self), events@).1,
    {
        let mut actions: Vec<Option<u8>> = Vec::new();
        let mut k: usize = 0;
        let mut stopped: bool = false;
        while k < events.len() && !stopped
            invariant
                0 <= k <= events@.len(),
                self.wf(),
                forall|i: int, j: int|
                    0 <= i <= j < events@.len() ==> events@[i].now_ns <= events@[j].now_ns,
                !stopped && (k as int) < events@.len() ==> self.last_flip_ns
                    <= events@[k as int].now_ns,
                !stopped ==> run_spec(*old(self), events@).0 == run_from(
                    *self,
                    events@,
                    k as int,
                ).0,
                !stopped ==> run_spec(*old(self), events@).1 == actions@ + run_from(
                    *self,
                    events@,
                    k as int,
                ).1,
                stopped ==> run_spec(*old(self), events@).0 == *self,
                stopped ==> run_spec(*old(self), events@).1 == actions@,
            decreases events@.len() - k, (if stopped { 0int } else { 1int }),
        {
            let ev = events[k];
            if ev.shutdown {
                stopped = true;
                proof {
                    assert(actions@ + run_from(*self, events@, k as int).1 =~= actions@);
                }
            } else {
                let ghost pre = *self;
                let flip = self.handle_tick(ev.now_ns);
                actions.push(flip);
                k = k + 1;
                proof {
                    assert(run_from(pre, events@, k - 1 as int).1 == seq![
                        pre.tick_action(events@[k - 1 as int].now_ns),
                    ] + run_from(*self, events@, k as int).1);
                    assert(actions@ =~= actions@.drop_last().push(flip));
                    assert(actions@.drop_last() + run_from(pre, events@, k - 1 as int).1
                        =~= actions@ + run_from(*self, events@, k as int).1);
                }
            }
        }
        proof {
            if !stopped {
                assert(actions@ + run_from(*self, events@, k as int).1 =~= actions@);
            }
        }
        actions
    }
}

/// The controller and the list of requested opacity changes that result from
/// running the loop over `events` from index `j` on, stopping at the first
/// event whose shutdown flag is set.
pub open spec fn run_from(c: Controller, events: Seq<LoopEvent>, j: int) -> (
    Controller,
    Seq<Option<u8>>,
)
    decreases events.len() - j,
{
    if j < 0 || j >= events.len() || events[j].shutdown {
        (c, Seq::empty())
    } else {
        let r = run_from(c.next(events[j].now_ns), events, j + 1);
        (r.0, seq![c.tick_action(events[j].now_ns)] + r.1)
    }
}

/// The result of running the loop over all of `events`.
pub open spec fn run_spec(c: Controller, events: Seq<LoopEvent>) -> (
    Controller,
    Seq<Option<u8>>,
) {
    run_from(c, events, 0)
}

} // verus!
