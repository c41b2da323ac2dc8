//! The timing loop as a state machine.
//!
//! The loop alternates a work phase and a rest phase and asks for a break
//! notice between them. It neither sleeps nor reads a clock: the caller
//! observes the clock and the cancellation source, hands the observation to
//! [`TimerLoop::step`] and performs the [`Action`] that comes back.

use crate::notice::Notice;
use crate::params::Parameters;
use vstd::prelude::*;

verus! {

/// Time between two looks at the cancellation source, in milliseconds.
pub const POLL_INTERVAL_MS: u64 = 300;

/// What a look at the cancellation source found.
#[derive(Clone, Copy, Debug, PartialEq, Eq, Structural)]
pub enum Signal {
    /// Nothing was sent and the sender is still there.
    Empty,
    /// A stop request was sent.
    Stop,
    /// The sender is gone without having sent anything.
    Disconnected,
}

impl Signal {
    /// The loop has to end: a stop request and a lost sender count alike.
    pub open spec fn cancels(self) -> bool {
        !(self is Empty)
    }

    /// Whether the loop has to end on this signal.
    pub fn is_cancel(&self) -> (b: bool)
        ensures
            b == self.cancels(),
    {
        match self {
            Signal::Empty => false,
            Signal::Stop => true,
            Signal::Disconnected => true,
        }
    }
}

/// One polling point: the clock and the cancellation source, read together.
#[derive(Clone, Copy, Debug, PartialEq, Eq, Structural)]
pub struct Tick {
    /// Reading of a monotonic clock, in milliseconds.
    pub now_ms: u64,
    /// What the cancellation source held.
    pub signal: Signal,
}

/// How a wait stands at a polling point.
#[derive(Clone, Copy, Debug, PartialEq, Eq, Structural)]
pub enum Outcome {
    /// Neither cancelled nor over: keep waiting.
    Pending,
    /// The deadline has passed and nothing cancelled the wait.
    Elapsed,
    /// The wait was cancelled, whether or not the deadline has passed.
    Cancelled,
}

/// A wait that a signal can interrupt: it began at `started_ms` and is over
/// `duration_ms` later.
#[derive(Clone, Copy, Debug, PartialEq, Eq, Structural)]
pub struct Wait {
    /// Clock reading at which the wait began.
    pub started_ms: u64,
    /// Length of the wait.
    pub duration_ms: u64,
}

impl Wait {
    /// Time waited at clock reading `now_ms`; none if the clock reads
    /// earlier than the start.
    pub open spec fn elapsed_spec(self, now_ms: u64) -> int {
        if now_ms >= self.started_ms {
            now_ms - self.started_ms
        } else {
            0
        }
    }

    /// How the wait stands at `tick`. Cancellation is looked at first, so
    /// it wins where the deadline has passed on the same tick.
    pub open spec fn outcome(self, tick: Tick) -> Outcome {
        if tick.signal.cancels() {
            Outcome::Cancelled
        } else if self.elapsed_spec(tick.now_ms) >= self.duration_ms {
            Outcome::Elapsed
        } else {
            Outcome::Pending
        }
    }

    /// A wait of `duration_ms` that begins at `now_ms`.
    pub fn begin(now_ms: u64, duration_ms: u64) -> (w: Wait)
        ensures
            w.started_ms == now_ms,
            w.duration_ms == duration_ms,
    {
        Wait { started_ms: now_ms, duration_ms }
    }

    /// Time waited at clock reading `now_ms`.
    pub fn elapsed(&self, now_ms: u64) -> (ms: u64)
        ensures
            ms == self.elapsed_spec(now_ms),
    {
        if now_ms >= self.started_ms {
            now_ms - self.started_ms
        } else {
            0
        }
    }

    /// How the wait stands at `tick`.
    pub fn poll(&self, tick: Tick) -> (o: Outcome)
        ensures
            o == self.outcome(tick),
    {
        if tick.signal.is_cancel() {
            Outcome::Cancelled
        } else if self.elapsed(tick.now_ms) >= self.duration_ms {
            Outcome::Elapsed
        } else {
            Outcome::Pending
        }
    }
}

/// Where the loop stands.
#[derive(Clone, Copy, Debug, PartialEq, Eq, Structural)]
pub enum Stage {
    /// Waiting for the work interval to pass.
    Work,
    /// The work interval has passed and a notice was asked for; the rest
    /// interval begins with the next observation.
    Notifying,
    /// Waiting for the rest interval to pass.
    Rest,
    /// The loop has ended and stays so.
    Stopped,
}

/// What the caller has to do before it observes again.
#[derive(Clone, Copy, Debug, PartialEq, Eq, Structural)]
pub enum Action {
    /// Sleep this long, then observe.
    Sleep {
        /// Time to sleep, in milliseconds.
        millis: u64,
    },
    /// Show the notice, then observe. Whether the notice could be shown is
    /// not reported back: the loop goes on either way.
    Notify(Notice),
    /// Leave the loop.
    Exit,
}

/// The timing loop between two observations.
#[derive(Clone, Copy, Debug, PartialEq, Eq, Structural)]
pub struct TimerLoop {
    /// Where the loop stands.
    pub stage: Stage,
    /// Clock reading at which the phase in progress began.
    pub started_ms: u64,
    /// The settings captured for the phase in progress.
    pub snapshot: Parameters,
}

/// An observation together with the settings that were current when it
/// was made.
pub type Observation = (Tick, Parameters);

impl TimerLoop {
    /// The settings captured lie in range.
    pub open spec fn wf(self) -> bool {
        self.snapshot.in_range()
    }

    /// The loop has not ended.
    pub open spec fn running(self) -> bool {
        !(self.stage is Stopped)
    }

    /// The loop as it starts at clock reading `now_ms`: in its first work
    /// phase, timed by `params` brought into range.
    pub open spec fn initial(now_ms: u64, params: Parameters) -> TimerLoop {
        TimerLoop { stage: Stage::Work, started_ms: now_ms, snapshot: params.clamped_spec() }
    }

    /// Length of the phase in progress, in milliseconds: the work interval
    /// of the captured settings while working, their rest interval
    /// otherwise.
    pub open spec fn phase_millis(self) -> int {
        match self.stage {
            Stage::Work => self.snapshot.work_millis_spec(),
            _ => self.snapshot.rest_millis_spec(),
        }
    }

    /// The wait in progress.
    pub open spec fn wait_spec(self) -> Wait {
        Wait { started_ms: self.started_ms, duration_ms: self.phase_millis() as u64 }
    }

    /// The loop after it has seen `tick` while `live` were the current
    /// settings.
    ///
    /// A loop that has ended stays as it is. A cancelling signal ends the
    /// loop in every stage. Otherwise a work phase that is over hands on to
    /// the notice and captures `live`, brought into range; the observation
    /// after the notice begins the rest phase with the settings captured for
    /// the notice; a rest phase that is over begins the next work phase and
    /// captures `live` again. A phase that is not over is left untouched.
    pub open spec fn next(self, tick: Tick, live: Parameters) -> TimerLoop {
        match self.stage {
            Stage::Stopped => self,
            Stage::Notifying => if tick.signal.cancels() {
                TimerLoop { stage: Stage::Stopped, ..self }
            } else {
                TimerLoop { stage: Stage::Rest, started_ms: tick.now_ms, ..self }
            },
            Stage::Work => match self.wait_spec().outcome(tick) {
                Outcome::Cancelled => TimerLoop { stage: Stage::Stopped, ..self },
                Outcome::Pending => self,
                Outcome::Elapsed => TimerLoop {
                    stage: Stage::Notifying,
                    started_ms: tick.now_ms,
                    snapshot: live.clamped_spec(),
                },
            },
            Stage::Rest => match self.wait_spec().outcome(tick) {
                Outcome::Cancelled => TimerLoop { stage: Stage::Stopped, ..self },
                Outcome::Pending => self,
                Outcome::Elapsed => TimerLoop {
                    stage: Stage::Work,
                    started_ms: tick.now_ms,
                    snapshot: live.clamped_spec(),
                },
            },
        }
    }

    /// What the loop asks for on seeing `tick`: to leave where it has ended
    /// or is cancelled, the notice where a work phase is over, and a sleep
    /// of one polling interval in every other case.
    pub open spec fn action(self, tick: Tick, live: Parameters) -> Action {
        if !self.running() || tick.signal.cancels() {
            Action::Exit
        } else if self.stage is Work && self.wait_spec().outcome(tick) is Elapsed {
            Action::Notify(Notice { rest_seconds: live.clamped_spec().rest_seconds })
        } else {
            Action::Sleep { millis: POLL_INTERVAL_MS }
        }
    }

    /// The loop after a whole run of observations, first to last.
    pub open spec fn run(self, trace: Seq<Observation>) -> TimerLoop
        decreases trace.len(),
    {
        if trace.len() == 0 {
            self
        } else {
            self.next(trace[0].0, trace[0].1).run(trace.skip(1))
        }
    }

    /// Number of notices asked for over a run of observations.
    pub open spec fn notices(self, trace: Seq<Observation>) -> nat
        decreases trace.len(),
    {
        if trace.len() == 0 {
            0
        } else {
            let asked: nat = if self.action(trace[0].0, trace[0].1) is Notify {
                1
            } else {
                0
            };
            asked + self.next(trace[0].0, trace[0].1).notices(trace.skip(1))
        }
    }

    /// Number of rest phases completed over a run of observations: each one
    /// closes a work-then-rest cycle.
    pub open spec fn cycles(self, trace: Seq<Observation>) -> nat
        decreases trace.len(),
    {
        if trace.len() == 0 {
            0
        } else {
            let next = self.next(trace[0].0, trace[0].1);
            let closed: nat = if self.stage is Rest && next.stage is Work {
                1
            } else {
                0
            };
            closed + next.cycles(trace.skip(1))
        }
    }

    /// A loop that starts at clock reading `now_ms` with a work phase timed
    /// by `params`, brought into range.
    pub fn begin(now_ms: u64, params: Parameters) -> (timer: TimerLoop)
        ensures
            timer == TimerLoop::initial(now_ms, params),
            timer.wf(),
            timer.running(),
    {
        TimerLoop { stage: Stage::Work, started_ms: now_ms, snapshot: params.clamped() }
    }

    /// Whether the loop has not ended.
    pub fn is_running(&self) -> (b: bool)
        ensures
            b == self.running(),
    {
        match self.stage {
            Stage::Stopped => false,
            _ => true,
        }
    }

    /// The wait in progress: its start and the length of the current phase.
    pub fn wait(&self) -> (w: Wait)
        ensures
            w == self.wait_spec(),
    {
        let duration_ms = match self.stage {
            Stage::Work => self.snapshot.work_millis(),
            _ => self.snapshot.rest_millis(),
        };
        Wait { started_ms: self.started_ms, duration_ms }
    }

    /// Takes in one observation, made while `live` were the current
    /// settings, and says what to do before the next one.
    pub fn step(&mut self, tick: Tick, live: Parameters) -> (action: Action)
        ensures
            *final(self) == old(self).next(tick, live),
            action == old(self).action(tick, live),
            old(self).wf() ==> final(self).wf(),
    {
        match self.stage {
            Stage::Stopped => Action::Exit,
            Stage::Notifying => {
                if tick.signal.is_cancel() {
                    self.stage = Stage::Stopped;
                    Action::Exit
                } else {
                    self.stage = Stage::Rest;
                    self.started_ms = tick.now_ms;
                    Action::Sleep { millis: POLL_INTERVAL_MS }
                }
            },
            Stage::Work => match self.wait().poll(tick) {
                Outcome::Cancelled => {
                    self.stage = Stage::Stopped;
                    Action::Exit
                },
                Outcome::Pending => Action::Sleep { millis: POLL_INTERVAL_MS },
                Outcome::Elapsed => {
                    let snapshot = live.clamped();
                    self.stage = Stage::Notifying;
                    self.started_ms = tick.now_ms;
                    self.snapshot = snapshot;
                    Action::Notify(Notice { rest_seconds: snapshot.rest_seconds })
                },
            },
            Stage::Rest => match self.wait().poll(tick) {
                Outcome::Cancelled => {
                    self.stage = Stage::Stopped;
                    Action::Exit
                },
                Outcome::Pending => Action::Sleep { millis: POLL_INTERVAL_MS },
                Outcome::Elapsed => {
                    self.stage = Stage::Work;
                    self.started_ms = tick.now_ms;
                    self.snapshot = live.clamped();
                    Action::Sleep { millis: POLL_INTERVAL_MS }
                },
            },
        }
    }
}

/// No observation of the run carries a cancelling signal.
pub open spec fn undisturbed(trace: Seq<Observation>) -> bool {
    forall|i: int| 0 <= i < trace.len() ==> !(#[trigger] trace[i]).0.signal.cancels()
}

/// Notices already asked for in the cycle that a stage belongs to.
pub open spec fn asked_in_cycle(stage: Stage) -> nat {
    match stage {
        Stage::Notifying => 1,
        Stage::Rest => 1,
        _ => 0,
    }
}

/// A cancelling signal ends the loop on the very observation that carries
/// it, in every stage and whatever the clock reads, and no notice is asked
/// for on that observation: cancellation wins over a deadline that has
/// passed on the same tick. A lost sender does what a stop request does.
pub proof fn cancellation_ends_the_loop(timer: TimerLoop, tick: Tick, live: Parameters)
    requires
        tick.signal.cancels(),
    ensures
        timer.next(tick, live).stage is Stopped,
        timer.action(tick, live) is Exit,
        timer.next(tick, live) == timer.next(Tick { signal: Signal::Stop, ..tick }, live),
        timer.next(tick, live) == timer.next(Tick { signal: Signal::Disconnected, ..tick }, live),
{
}

/// A running loop never asks for a sleep longer than the polling interval,
/// and whatever it asked for, a cancelling signal found by the observation
/// that follows ends it: a stop request waits for at most one polling
/// interval, in either phase and however much of the phase is left.
pub proof fn stop_is_seen_at_the_next_poll(
    timer: TimerLoop,
    tick: Tick,
    live: Parameters,
    following: Tick,
    live_then: Parameters,
)
    requires
        following.signal.cancels(),
    ensures
        timer.action(tick, live) matches Action::Sleep { millis } ==> millis == POLL_INTERVAL_MS,
        timer.next(tick, live).next(following, live_then).stage is Stopped,
        timer.next(tick, live).action(following, live_then) is Exit,
{
}

/// A loop that has ended stays ended: every later observation leaves it
/// as it is and is answered by `Exit`, so it asks for no further notice and
/// closes no further cycle.
pub proof fn stopped_is_final(timer: TimerLoop, trace: Seq<Observation>)
    requires
        timer.stage is Stopped,
    ensures
        timer.run(trace) == timer,
        timer.notices(trace) == 0,
        timer.cycles(trace) == 0,
        forall|i: int| 0 <= i < trace.len() ==> timer.action(trace[i].0, trace[i].1) is Exit,
    decreases trace.len(),
{
    if trace.len() > 0 {
        stopped_is_final(timer, trace.skip(1));
    }
}

/// A run whose first observation carries a cancelling signal asks for no
/// notice at all. In particular a loop stopped during its work phase does
/// not announce a break, even if the work interval has run out by then.
pub proof fn no_notice_after_cancellation(timer: TimerLoop, trace: Seq<Observation>)
    requires
        trace.len() > 0,
        trace[0].0.signal.cancels(),
    ensures
        timer.notices(trace) == 0,
        timer.run(trace).stage is Stopped,
{
    stopped_is_final(timer.next(trace[0].0, trace[0].1), trace.skip(1));
}

/// Over a run without cancellation every completed work phase asks for
/// exactly one notice and nothing else does: the notices asked for are the
/// cycles closed, plus one where the run ends after a notice whose rest
/// phase is still open, less one where it began there.
pub proof fn one_notice_per_cycle(timer: TimerLoop, trace: Seq<Observation>)
    requires
        timer.running(),
        undisturbed(trace),
    ensures
        timer.run(trace).running(),
        timer.notices(trace) + asked_in_cycle(timer.stage) == timer.cycles(trace) + asked_in_cycle(
            timer.run(trace).stage,
        ),
    decreases trace.len(),
{
    if trace.len() > 0 {
        let rest = trace.skip(1);
        assert(!trace[0].0.signal.cancels());
        assert forall|i: int| 0 <= i < rest.len() implies !(#[trigger] rest[i]).0.signal.cancels() by {
            assert(rest[i] == trace[i + 1]);
        }
        one_notice_per_cycle(timer.next(trace[0].0, trace[0].1), rest);
    }
}

/// A loop begun afresh and left undisturbed has asked for as many notices
/// as it has closed cycles whenever it stands in a work phase again: N full
/// cycles give exactly N notices.
pub proof fn full_cycles_match_notices(
    now_ms: u64,
    params: Parameters,
    trace: Seq<Observation>,
)
    requires
        undisturbed(trace),
        TimerLoop::initial(now_ms, params).run(trace).stage is Work,
    ensures
        TimerLoop::initial(now_ms, params).notices(trace) == TimerLoop::initial(
            now_ms,
            params,
        ).cycles(trace),
{
    one_notice_per_cycle(TimerLoop::initial(now_ms, params), trace);
}

/// Over any run at all, cancelled or not, the notices asked for never fall
/// behind the cycles closed and never run ahead by more than the one whose
/// rest phase is still open.
pub proof fn notices_keep_step_with_cycles(timer: TimerLoop, trace: Seq<Observation>)
    ensures
        timer.cycles(trace) <= timer.notices(trace) + asked_in_cycle(timer.stage),
        timer.notices(trace) + asked_in_cycle(timer.stage) <= timer.cycles(trace) + 1,
    decreases trace.len(),
{
    if trace.len() > 0 {
        let next = timer.next(trace[0].0, trace[0].1);
        if next.stage is Stopped {
            stopped_is_final(next, trace.skip(1));
        } else {
            notices_keep_step_with_cycles(next, trace.skip(1));
        }
    }
}

/// Settings changed while a phase is in progress do not touch that phase:
/// as long as the observation does not end a work or a rest phase, the
/// loop goes on exactly as it would have under any other settings, and a
/// wait that is still pending keeps its start and its length. Only the
/// observation that ends a phase captures the settings, brought into range,
/// for the phase that follows.
pub proof fn settings_reach_only_the_next_phase(
    timer: TimerLoop,
    tick: Tick,
    live: Parameters,
    other: Parameters,
)
    ensures
        !(timer.stage is Work || timer.stage is Rest) || !(timer.wait_spec().outcome(tick)
            is Elapsed) ==> timer.next(tick, live) == timer.next(tick, other) && timer.action(
            tick,
            live,
        ) == timer.action(tick, other),
        (timer.stage is Work || timer.stage is Rest) && timer.wait_spec().outcome(tick)
            is Pending ==> timer.next(tick, live) == timer,
        (timer.stage is Work || timer.stage is Rest) && timer.wait_spec().outcome(tick)
            is Elapsed ==> timer.next(tick, live).snapshot == live.clamped_spec()
            && timer.next(tick, live).started_ms == tick.now_ms,
        timer.stage is Work && timer.wait_spec().outcome(tick) is Elapsed ==> timer.action(
            tick,
            live,
        ) == Action::Notify(Notice { rest_seconds: live.clamped_spec().rest_seconds }),
        timer.stage is Notifying && !tick.signal.cancels() ==> timer.next(tick, live).stage
            is Rest && timer.next(tick, live).phase_millis() == timer.snapshot.rest_millis_spec(),
{
}

/// Every phase is timed by settings in range, whatever the caller hands
/// in: a loop that was begun by [`TimerLoop::begin`] waits between one and
/// sixty minutes for work and between five and sixty seconds for rest, and
/// every notice it asks for announces a rest interval in range.
pub proof fn phases_stay_in_range(
    now_ms: u64,
    params: Parameters,
    trace: Seq<Observation>,
    tick: Tick,
    live: Parameters,
)
    ensures
        TimerLoop::initial(now_ms, params).run(trace).wf(),
        TimerLoop::initial(now_ms, params).run(trace).action(tick, live) matches Action::Notify(
            notice,
        ) ==> notice.in_range(),
{
    run_keeps_range(TimerLoop::initial(now_ms, params), trace);
}

/// A run keeps the captured settings in range.
pub proof fn run_keeps_range(timer: TimerLoop, trace: Seq<Observation>)
    requires
        timer.wf(),
    ensures
        timer.run(trace).wf(),
    decreases trace.len(),
{
    if trace.len() > 0 {
        run_keeps_range(timer.next(trace[0].0, trace[0].1), trace.skip(1));
    }
}

} // verus!
