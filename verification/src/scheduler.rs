//! The schedule of the periodic refresh, as a state machine.
//!
//! The owner of the background task feeds it events (a wake-up with the
//! time, the end of a pass, a shutdown request) and does what it answers.
//! Time is counted in milliseconds from the start of the schedule.

use vstd::arithmetic::div_mod::lemma_fundamental_div_mod;
use vstd::arithmetic::div_mod::lemma_mod_multiples_basic;
use vstd::arithmetic::div_mod::lemma_mod_decreases;
use vstd::arithmetic::div_mod::lemma_mod_pos_bound;
use vstd::arithmetic::div_mod::lemma_small_mod;
use vstd::prelude::*;

use crate::registry::RefreshStatus;

verus! {

/// How a refresh pass ended.
#[derive(Clone, Copy, Debug, PartialEq, Eq, Structural)]
pub enum PassResult {
    /// The pass ran to its end.
    Completed,
    /// The pass failed as a whole.
    Failed,
}

/// Whether the model failed for some object of a pass.
pub open spec fn any_failed(report: Seq<RefreshStatus>) -> bool {
    exists|i: int| 0 <= i < report.len() && (#[trigger] report[i]) is Failed
}

/// How a pass ended, going by its report: it failed where the model failed
/// for at least one object. An object that was left alone as stale is no
/// failure.
pub fn pass_result(report: &Vec<RefreshStatus>) -> (result: PassResult)
    ensures
        result == if any_failed(report@) {
            PassResult::Failed
        } else {
            PassResult::Completed
        },
{
    let mut i: usize = 0;
    while i < report.len()
        invariant
            i <= report.len(),
            forall|k: int| 0 <= k < i ==> !((#[trigger] report@[k]) is Failed),
        decreases report.len() - i,
    {
        match report[i] {
            RefreshStatus::Failed(_) => {
                return PassResult::Failed;
            },
            _ => {},
        }
        i += 1;
    }
    PassResult::Completed
}

/// What happened to the background task.
#[derive(Clone, Copy, Debug, PartialEq, Eq, Structural)]
pub enum SchedulerEvent {
    /// The task woke up at `now`.
    Wake { now: u64 },
    /// The pass that the scheduler started has ended.
    Finished(PassResult),
    /// The owner asked the task to end.
    Shutdown,
}

/// What the background task does next.
#[derive(Clone, Copy, Debug, PartialEq, Eq, Structural)]
pub enum SchedulerAction {
    /// Run one refresh pass now, then report `Finished`.
    Refresh,
    /// Sleep until `until`, then report `Wake`.
    Wait { until: u64 },
    /// A pass is still running: start nothing, and report its `Finished`.
    Busy,
    /// Report the failed pass, then go on as for `Wait`.
    ReportFailure { until: u64 },
    /// End the task.
    Stop,
}

/// The state of a schedule.
#[derive(Clone, Copy, Debug, PartialEq, Eq, Structural)]
pub struct Schedule {
    /// Milliseconds between two ticks; never 0.
    pub period: u64,
    /// The next tick: a multiple of `period`.
    pub next_due: u64,
    /// Whether a pass was started and has not ended.
    pub in_flight: bool,
    /// Whether the schedule has ended.
    pub stopped: bool,
}

/// The first tick after `now`: the least multiple of `period` above `now`.
pub open spec fn tick_after(period: u64, now: u64) -> int {
    now - now % period + period
}

impl Schedule {
    /// The invariant of a schedule: the period is not 0, and the next tick
    /// lies on the grid that starts at 0.
    pub open spec fn wf(self) -> bool {
        self.period > 0 && self.next_due % self.period == 0
    }

    /// The schedule once a pass has started at `now`. Ticks stay on the grid
    /// laid out at start; where the next one is beyond what a `u64` counts,
    /// the schedule ends after this pass.
    pub open spec fn started(self, now: u64) -> Schedule {
        if tick_after(self.period, now) <= u64::MAX {
            Schedule { next_due: tick_after(self.period, now) as u64, in_flight: true, ..self }
        } else {
            Schedule { in_flight: true, stopped: true, ..self }
        }
    }

    /// What the task is told when it has nothing to run.
    pub open spec fn idle_action(self) -> SchedulerAction {
        if self.stopped {
            SchedulerAction::Stop
        } else {
            SchedulerAction::Wait { until: self.next_due }
        }
    }

    /// The transition function: the state after `event`, and the action that
    /// answers it.
    pub open spec fn next(self, event: SchedulerEvent) -> (Schedule, SchedulerAction) {
        match event {
            SchedulerEvent::Shutdown => (Schedule { stopped: true, ..self }, SchedulerAction::Stop),
            SchedulerEvent::Finished(result) => {
                let after = Schedule { in_flight: false, ..self };
                if self.in_flight && !self.stopped && result == PassResult::Failed {
                    (after, SchedulerAction::ReportFailure { until: self.next_due })
                } else {
                    (after, after.idle_action())
                }
            },
            SchedulerEvent::Wake { now } => {
                if self.stopped {
                    (self, SchedulerAction::Stop)
                } else if self.in_flight {
                    (self, SchedulerAction::Busy)
                } else if now < self.next_due {
                    (self, SchedulerAction::Wait { until: self.next_due })
                } else {
                    (self.started(now), SchedulerAction::Refresh)
                }
            },
        }
    }
}

/// The refresh scheduler: a schedule that only moves by [`Schedule::next`].
#[derive(Clone, Copy, Debug)]
pub struct RefreshScheduler {
    state: Schedule,
}

impl View for RefreshScheduler {
    type V = Schedule;

    closed spec fn view(&self) -> Schedule {
        self.state
    }
}

impl RefreshScheduler {
    /// The invariant of a scheduler. Every scheduler that `new` and `step`
    /// give meets it.
    pub open spec fn wf(&self) -> bool {
        self@.wf()
    }

    /// A scheduler with a tick every `period` milliseconds, the first one at
    /// once. There is no scheduler with period 0.
    pub fn new(period: u64) -> (scheduler: Option<RefreshScheduler>)
        ensures
            period == 0 <==> scheduler is None,
            scheduler matches Some(s) ==> s.wf() && s@ == (Schedule {
                period,
                next_due: 0,
                in_flight: false,
                stopped: false,
            }),
    {
        if period == 0 {
            None
        } else {
            proof {
                lemma_small_mod(0, period as nat);
            }
            Some(
                RefreshScheduler {
                    state: Schedule { period, next_due: 0, in_flight: false, stopped: false },
                },
            )
        }
    }

    /// The state of the schedule.
    pub fn state(&self) -> (state: Schedule)
        ensures
            state == self@,
    {
        self.state
    }

    /// Takes one event and answers with the action to perform.
    pub fn step(&mut self, event: SchedulerEvent) -> (action: SchedulerAction)
        requires
            old(self).wf(),
        ensures
            final(self).wf(),
            (final(self)@, action) == old(self)@.next(event),
    {
        let state = self.state;
        match event {
            SchedulerEvent::Shutdown => {
                self.state = Schedule { stopped: true, ..state };
                SchedulerAction::Stop
            },
            SchedulerEvent::Finished(result) => {
                self.state = Schedule { in_flight: false, ..state };
                if state.in_flight && !state.stopped && result == PassResult::Failed {
                    SchedulerAction::ReportFailure { until: state.next_due }
                } else if state.stopped {
                    SchedulerAction::Stop
                } else {
                    SchedulerAction::Wait { until: state.next_due }
                }
            },
            SchedulerEvent::Wake { now } => {
                if state.stopped {
                    SchedulerAction::Stop
                } else if state.in_flight {
                    SchedulerAction::Busy
                } else if now < state.next_due {
                    SchedulerAction::Wait { until: state.next_due }
                } else {
                    proof {
                        lemma_tick_after(state.period, now);
                    }
                    let last_tick: u64 = now - now % state.period;
                    self.state = match last_tick.checked_add(state.period) {
                        Some(tick) => Schedule { next_due: tick, in_flight: true, ..state },
                        None => Schedule { in_flight: true, stopped: true, ..state },
                    };
                    SchedulerAction::Refresh
                }
            },
        }
    }
}

/// The tick after `now` lies on the grid, after `now`, and at most one
/// period away.
pub proof fn lemma_tick_after(period: u64, now: u64)
    requires
        period > 0,
    ensures
        now % period <= now,
        tick_after(period, now) % (period as int) == 0,
        now < tick_after(period, now) <= now + period,
{
    let p = period as int;
    let n = now as int;
    lemma_mod_pos_bound(n, p);
    lemma_mod_decreases(now as nat, period as nat);
    lemma_fundamental_div_mod(n, p);
    assert(n - n % p + p == p * (n / p + 1)) by (nonlinear_arith)
        requires
            n == p * (n / p) + n % p,
    ;
    lemma_mod_multiples_basic(n / p + 1, p);
    assert((n / p + 1) * p == p * (n / p + 1)) by (nonlinear_arith);
}

/// The invariant holds in every state that events lead to.
pub proof fn lemma_step_keeps_invariant(state: Schedule, event: SchedulerEvent)
    requires
        state.wf(),
    ensures
        state.next(event).0.wf(),
        state.next(event).0.period == state.period,
{
    if let SchedulerEvent::Wake { now } = event {
        lemma_tick_after(state.period, now);
    }
}

/// At most one pass is in flight: a pass starts only when none is running,
/// and from then on one counts as running until its `Finished` arrives.
pub proof fn lemma_one_pass_at_a_time(state: Schedule, event: SchedulerEvent)
    requires
        state.wf(),
    ensures
        state.next(event).1 is Refresh ==> !state.in_flight && state.next(event).0.in_flight,
        state.in_flight && !(event is Finished) ==> state.next(event).0.in_flight && !(state.next(
            event,
        ).1 is Refresh),
{
}

/// A wake-up at or after the tick starts a pass, unless one is running or
/// the schedule has ended. The next tick then lies on the grid laid out at
/// start, after the wake-up and at most one period from it: a late wake-up
/// skips the ticks it missed and shifts none.
pub proof fn lemma_due_wake_fires(state: Schedule, now: u64)
    requires
        state.wf(),
        !state.stopped,
        !state.in_flight,
        now >= state.next_due,
    ensures
        state.next(SchedulerEvent::Wake { now }).1 is Refresh,
        ({
            let after = state.next(SchedulerEvent::Wake { now }).0;
            !after.stopped ==> after.next_due % state.period == 0 && now < after.next_due <= now
                + state.period
        }),
{
    lemma_tick_after(state.period, now);
}

/// A wake-up before the tick starts nothing and asks to be woken at the tick.
pub proof fn lemma_early_wake_waits(state: Schedule, now: u64)
    requires
        state.wf(),
        !state.stopped,
        !state.in_flight,
        now < state.next_due,
    ensures
        state.next(SchedulerEvent::Wake { now }) == (
            state,
            SchedulerAction::Wait { until: state.next_due },
        ),
{
}

/// A failed pass does not end the schedule: it leaves the same state as a
/// completed one, and the task is told when to wake next.
pub proof fn lemma_failure_does_not_stop(state: Schedule)
    requires
        state.wf(),
        state.in_flight,
        !state.stopped,
    ensures
        state.next(SchedulerEvent::Finished(PassResult::Failed)).0 == state.next(
            SchedulerEvent::Finished(PassResult::Completed),
        ).0,
        !state.next(SchedulerEvent::Finished(PassResult::Failed)).0.stopped,
        state.next(SchedulerEvent::Finished(PassResult::Failed)).1
            == (SchedulerAction::ReportFailure { until: state.next_due }),
        state.next(SchedulerEvent::Finished(PassResult::Completed)).1 == (SchedulerAction::Wait {
            until: state.next_due,
        }),
{
}

/// Shutdown is final: once asked for, no event starts a pass or revives the
/// schedule.
pub proof fn lemma_shutdown_is_final(state: Schedule, event: SchedulerEvent)
    requires
        state.wf(),
    ensures
        state.next(SchedulerEvent::Shutdown).0.stopped,
        state.next(SchedulerEvent::Shutdown).1 is Stop,
        state.stopped ==> state.next(event).0.stopped && state.next(event).1 is Stop,
{
}

} // verus!
