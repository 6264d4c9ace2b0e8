use vstd::prelude::*;

use crate::config::Configuration;
use crate::config::TimerError;
use crate::config::MAX_PHASE_SEC;
use crate::worker::WorkerState;
use crate::worker::step_down;

verus! {

/// Segment of the schedule the timer is currently in.
#[derive(Clone, Copy, PartialEq, Eq, Structural, Debug)]
pub enum Phase {
    /// An active work interval.
    Work,
    /// The short rest after laps 1 to 3.
    LapRest,
    /// The long rest after the fourth lap.
    LoopRest,
}

/// What `play` decided, and so what the caller must do.
#[derive(Clone, Copy, PartialEq, Eq, Structural, Debug)]
pub enum PlayOutcome {
    /// The engine was already counting; nothing to do.
    AlreadyRunning,
    /// The engine entered the counting state: the caller must join any
    /// leftover worker and start a fresh one bound to `remaining_sec`.
    Started,
}

/// What `pause` decided, and so what the caller must do.
#[derive(Clone, Copy, PartialEq, Eq, Structural, Debug)]
pub enum PauseOutcome {
    /// The engine was already paused; nothing to do.
    AlreadyPaused,
    /// The caller must set the worker's cancellation flag; the worker is
    /// joined lazily, once `poll` sees its completion flag.
    Canceled,
}

/// What one `poll` found, and so what the caller must do.
#[derive(Clone, Copy, PartialEq, Eq, Structural, Debug)]
pub enum PollOutcome {
    /// Nothing happened.
    Idle,
    /// The finished worker was reclaimed: the caller must join its handle
    /// and clear both flags.
    Reclaimed,
    /// A work interval ended: the engine auto-paused for acknowledgment.
    /// The caller must set the stale worker's cancellation flag and emit
    /// the lap-complete notification request.
    LapComplete,
    /// A rest ended: the countdown continues into the next work interval.
    /// The caller must cancel and join the stale worker and start a fresh
    /// one bound to the new `remaining_sec`.
    RestComplete,
}

/// The timer engine's authoritative state.  It is a pure state machine:
/// real time reaches it only as `tick` events, and the worker's completion
/// flag only as the argument of `poll`.
#[derive(Clone, Copy, PartialEq, Eq, Structural, Debug)]
pub struct TimerEngine {
    /// The session's configured durations.
    pub config: Configuration,
    /// Current segment of the schedule.
    pub phase: Phase,
    /// Seconds left in the current phase.  Counted down by the worker,
    /// rewritten by the engine on transitions and resets.
    pub remaining_sec: u32,
    /// Work intervals completed within the current loop, zero to three.
    pub lap_count: u8,
    /// Completed loops of four laps.  Never decreases; stays at its
    /// maximum once 255 loops are done.
    pub loop_count: u8,
    /// A session is underway (`play` was accepted and no `stop` since).
    pub running: bool,
    /// The countdown is suspended.  A stopped engine counts as paused.
    pub paused: bool,
    /// Lifecycle of the countdown worker, as known to the engine.
    pub worker: WorkerState,
}

impl TimerEngine {
    /// Well-formedness: every state the engine's operations produce
    /// satisfies this.
    pub open spec fn wf(self) -> bool {
        &&& self.config.valid()
        &&& self.lap_count <= 3
        &&& self.remaining_sec <= MAX_PHASE_SEC
        &&& !self.running ==> self.paused
        &&& !self.running ==> self.worker is Absent
        &&& (self.worker is Running <==> self.running && !self.paused)
        &&& self.phase is LoopRest ==> self.lap_count == 0
    }

    /// The default state for a configuration: a fresh `Work` phase of the
    /// full lap duration, counters cleared, stopped, no worker.
    pub open spec fn initial_spec(config: Configuration) -> TimerEngine {
        TimerEngine {
            config,
            phase: Phase::Work,
            remaining_sec: config.lap_duration_sec,
            lap_count: 0,
            loop_count: 0,
            running: false,
            paused: true,
            worker: WorkerState::Absent,
        }
    }

    /// A fresh engine with the default configuration.
    pub fn new() -> (r: TimerEngine)
        ensures
            r == TimerEngine::initial_spec(Configuration::default_spec()),
            r.wf(),
    {
        TimerEngine {
            config: Configuration::default(),
            phase: Phase::Work,
            remaining_sec: 25 * 60,
            lap_count: 0,
            loop_count: 0,
            running: false,
            paused: true,
            worker: WorkerState::Absent,
        }
    }

    /// State after a successful `configure`: the new durations applied and
    /// the counter reseeded for the next `Work` phase.
    pub open spec fn after_configure(self, config: Configuration) -> TimerEngine {
        TimerEngine { config, remaining_sec: config.lap_duration_sec, ..self }
    }

    /// Applies a new configuration.  Rejected while a session is underway,
    /// and rejected when a duration is out of range; otherwise the engine
    /// stays stopped and `remaining_sec` is reseeded to the new lap
    /// duration.
    pub fn configure(&mut self, config: Configuration) -> (r: Result<(), TimerError>)
        requires
            old(self).wf(),
        ensures
            final(self).wf(),
            old(self).running ==> r == Err::<(), TimerError>(TimerError::InvalidTransition)
                && *final(self) == *old(self),
            !old(self).running && !config.valid() ==> r == Err::<(), TimerError>(
                TimerError::ConfigOutOfRange,
            ) && *final(self) == *old(self),
            !old(self).running && config.valid() ==> r == Ok::<(), TimerError>(())
                && *final(self) == old(self).after_configure(config),
    {
        if self.running {
            Err(TimerError::InvalidTransition)
        } else if !config.is_valid() {
            Err(TimerError::ConfigOutOfRange)
        } else {
            self.config = config;
            self.remaining_sec = config.lap_duration_sec;
            Ok(())
        }
    }

    /// State after `play`: counting, with exactly one live worker.
    pub open spec fn after_play(self) -> TimerEngine {
        if self.running && !self.paused {
            self
        } else {
            TimerEngine { running: true, paused: false, worker: WorkerState::Running, ..self }
        }
    }

    /// Starts or resumes the countdown.  A no-op while already counting;
    /// otherwise the engine enters the counting state with one live worker
    /// (the caller joins any leftover one first, then starts the fresh
    /// one).
    pub fn play(&mut self) -> (r: PlayOutcome)
        requires
            old(self).wf(),
        ensures
            final(self).wf(),
            *final(self) == old(self).after_play(),
            r == (if old(self).running && !old(self).paused {
                PlayOutcome::AlreadyRunning
            } else {
                PlayOutcome::Started
            }),
    {
        if self.running && !self.paused {
            PlayOutcome::AlreadyRunning
        } else {
            self.running = true;
            self.paused = false;
            self.worker = WorkerState::Running;
            PlayOutcome::Started
        }
    }

    /// State after `pause`: suspended, the live worker canceled but not
    /// yet joined.
    pub open spec fn after_pause(self) -> TimerEngine {
        if self.paused {
            self
        } else {
            TimerEngine { paused: true, worker: WorkerState::Canceled, ..self }
        }
    }

    /// Suspends the countdown.  A no-op while already paused; otherwise
    /// the live worker is canceled (it stops decrementing within one tick)
    /// and left for `poll` to reclaim, so that `pause` never blocks.
    pub fn pause(&mut self) -> (r: PauseOutcome)
        requires
            old(self).wf(),
        ensures
            final(self).wf(),
            *final(self) == old(self).after_pause(),
            r == (if old(self).paused {
                PauseOutcome::AlreadyPaused
            } else {
                PauseOutcome::Canceled
            }),
    {
        if self.paused {
            PauseOutcome::AlreadyPaused
        } else {
            self.paused = true;
            self.worker = WorkerState::Canceled;
            PauseOutcome::Canceled
        }
    }

    /// Ends the session.  Legal only while paused; the caller joins any
    /// leftover worker (blocking is acceptable here), and the whole state
    /// returns to the default for the configured lap duration — phase,
    /// counter and both counts included.
    pub fn stop(&mut self) -> (r: Result<(), TimerError>)
        requires
            old(self).wf(),
        ensures
            final(self).wf(),
            !old(self).paused ==> r == Err::<(), TimerError>(TimerError::InvalidTransition)
                && *final(self) == *old(self),
            old(self).paused ==> r == Ok::<(), TimerError>(())
                && *final(self) == TimerEngine::initial_spec(old(self).config),
    {
        if !self.paused {
            Err(TimerError::InvalidTransition)
        } else {
            self.phase = Phase::Work;
            self.remaining_sec = self.config.lap_duration_sec;
            self.lap_count = 0;
            self.loop_count = 0;
            self.running = false;
            self.paused = true;
            self.worker = WorkerState::Absent;
            Ok(())
        }
    }

    /// State after one worker tick: the counter one lower (clamped at
    /// zero) while a worker is live, untouched otherwise.
    pub open spec fn after_tick(self) -> TimerEngine {
        if self.worker is Running {
            TimerEngine { remaining_sec: step_down(self.remaining_sec), ..self }
        } else {
            self
        }
    }

    /// One second of countdown, as the engine sees it: the live worker
    /// decremented the shared counter, clamped at zero.  A canceled or
    /// absent worker no longer touches the counter, so the state is
    /// unchanged then.
    pub fn tick(&mut self)
        requires
            old(self).wf(),
        ensures
            final(self).wf(),
            *final(self) == old(self).after_tick(),
    {
        if self.worker == WorkerState::Running {
            self.remaining_sec = crate::worker::countdown_step(self.remaining_sec);
        }
    }

    /// The current work interval has run out.
    pub open spec fn work_expired(self) -> bool {
        self.running && !self.paused && self.remaining_sec == 0 && self.phase is Work
    }

    /// The current rest has run out.
    pub open spec fn rest_expired(self) -> bool {
        self.running && !self.paused && self.remaining_sec == 0 && !(self.phase is Work)
    }

    /// One more completed loop, held at the counter's maximum rather than
    /// wrapping.
    pub open spec fn bump_loop(c: u8) -> u8 {
        if c < 255 {
            (c + 1) as u8
        } else {
            255
        }
    }

    /// State after a work interval expires: the lap is counted — the
    /// fourth lap closes the loop and leads into the long rest, earlier
    /// ones into the short rest — the engine auto-pauses for the user's
    /// acknowledgment, and the stale worker is canceled.
    pub open spec fn after_lap_complete(self) -> TimerEngine {
        if self.lap_count == 3 {
            TimerEngine {
                phase: Phase::LoopRest,
                remaining_sec: self.config.loop_rest_sec,
                lap_count: 0,
                loop_count: TimerEngine::bump_loop(self.loop_count),
                paused: true,
                worker: WorkerState::Canceled,
                ..self
            }
        } else {
            TimerEngine {
                phase: Phase::LapRest,
                remaining_sec: self.config.lap_rest_sec,
                lap_count: (self.lap_count + 1) as u8,
                paused: true,
                worker: WorkerState::Canceled,
                ..self
            }
        }
    }

    /// State after a rest expires: silently back to work for a full lap
    /// duration, still counting — the stale worker is replaced by a fresh
    /// live one without a pause.
    pub open spec fn after_rest_complete(self) -> TimerEngine {
        TimerEngine { phase: Phase::Work, remaining_sec: self.config.lap_duration_sec, ..self }
    }

    /// State after one `poll`, given whether the worker's completion flag
    /// was observed set.
    pub open spec fn after_poll(self, worker_done: bool) -> TimerEngine {
        if worker_done {
            TimerEngine { worker: WorkerState::Absent, ..self }
        } else if self.work_expired() {
            self.after_lap_complete()
        } else if self.rest_expired() {
            self.after_rest_complete()
        } else {
            self
        }
    }

    /// What one `poll` reports, given whether the worker's completion flag
    /// was observed set.
    pub open spec fn poll_outcome(self, worker_done: bool) -> PollOutcome {
        if worker_done {
            PollOutcome::Reclaimed
        } else if self.work_expired() {
            PollOutcome::LapComplete
        } else if self.rest_expired() {
            PollOutcome::RestComplete
        } else {
            PollOutcome::Idle
        }
    }

    /// One presentation-refresh step.  First duty: if the worker's
    /// completion flag is set, reclaim the finished worker (the caller
    /// joins the handle — safe, the worker already exited — and clears
    /// both flags).  Second duty: if the countdown reached zero, perform
    /// the phase transition.  A completion flag can only be set by a
    /// canceled worker, and a canceled worker only exists while the
    /// countdown is suspended, so the two duties never coincide.  `poll`
    /// never blocks.
    pub fn poll(&mut self, worker_done: bool) -> (r: PollOutcome)
        requires
            old(self).wf(),
            worker_done ==> old(self).worker is Canceled,
        ensures
            final(self).wf(),
            *final(self) == old(self).after_poll(worker_done),
            r == old(self).poll_outcome(worker_done),
    {
        if worker_done {
            self.worker = WorkerState::Absent;
            PollOutcome::Reclaimed
        } else if self.running && !self.paused && self.remaining_sec == 0 {
            if self.phase == Phase::Work {
                if self.lap_count == 3 {
                    self.phase = Phase::LoopRest;
                    self.remaining_sec = self.config.loop_rest_sec;
                    self.lap_count = 0;
                    self.loop_count = if self.loop_count < 255 {
                        self.loop_count + 1
                    } else {
                        255
                    };
                } else {
                    self.phase = Phase::LapRest;
                    self.remaining_sec = self.config.lap_rest_sec;
                    self.lap_count = self.lap_count + 1;
                }
                self.paused = true;
                self.worker = WorkerState::Canceled;
                PollOutcome::LapComplete
            } else {
                self.phase = Phase::Work;
                self.remaining_sec = self.config.lap_duration_sec;
                PollOutcome::RestComplete
            }
        } else {
            PollOutcome::Idle
        }
    }

    /// The whole-minute and leftover-second parts of the remaining time,
    /// for a clock-style display.
    pub fn clock_parts(&self) -> (r: (u32, u32))
        ensures
            r.0 == self.remaining_sec / 60,
            r.1 == self.remaining_sec % 60,
            r.1 < 60,
    {
        (self.remaining_sec / 60, self.remaining_sec % 60)
    }
}

impl Default for TimerEngine {
    /// Same as `new`: a stopped engine with the default configuration.
    fn default() -> (r: Self)
        ensures
            r == TimerEngine::initial_spec(Configuration::default_spec()),
            r.wf(),
    {
        TimerEngine::new()
    }
}

} // verus!
