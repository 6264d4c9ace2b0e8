use vstd::prelude::*;

verus! {

/// Shortest phase duration a session may be configured with: one minute.
pub const MIN_PHASE_SEC: u32 = 60;

/// Longest phase duration a session may be configured with: 59 minutes.
pub const MAX_PHASE_SEC: u32 = 59 * 60;

/// Durations of the three phase kinds, in seconds.  Immutable per session:
/// the engine only accepts a new configuration while it is stopped.
#[derive(Clone, Copy, PartialEq, Eq, Structural, Debug)]
pub struct Configuration {
    /// Length of one work interval.
    pub lap_duration_sec: u32,
    /// Length of the short rest after laps 1 to 3.
    pub lap_rest_sec: u32,
    /// Length of the long rest after the fourth lap.
    pub loop_rest_sec: u32,
}

/// Why an engine operation was rejected.
#[derive(Clone, Copy, PartialEq, Eq, Structural, Debug)]
pub enum TimerError {
    /// A configured duration lies outside one to 59 minutes.
    ConfigOutOfRange,
    /// The operation is not legal in the engine's current state.
    InvalidTransition,
}

impl Configuration {
    /// Every duration lies within the accepted range.
    pub open spec fn valid(self) -> bool {
        &&& MIN_PHASE_SEC <= self.lap_duration_sec <= MAX_PHASE_SEC
        &&& MIN_PHASE_SEC <= self.lap_rest_sec <= MAX_PHASE_SEC
        &&& MIN_PHASE_SEC <= self.loop_rest_sec <= MAX_PHASE_SEC
    }

    /// The configuration a fresh engine starts with: 25-minute laps,
    /// 5-minute lap rests, a 30-minute loop rest.
    pub open spec fn default_spec() -> Configuration {
        Configuration {
            lap_duration_sec: (25 * 60) as u32,
            lap_rest_sec: (5 * 60) as u32,
            loop_rest_sec: (30 * 60) as u32,
        }
    }

    /// Runtime check of `valid`.
    pub fn is_valid(&self) -> (r: bool)
        ensures
            r == self.valid(),
    {
        MIN_PHASE_SEC <= self.lap_duration_sec && self.lap_duration_sec <= MAX_PHASE_SEC
            && MIN_PHASE_SEC <= self.lap_rest_sec && self.lap_rest_sec <= MAX_PHASE_SEC
            && MIN_PHASE_SEC <= self.loop_rest_sec && self.loop_rest_sec <= MAX_PHASE_SEC
    }

    /// Builds a configuration from durations given in whole minutes.
    pub fn from_minutes(lap_min: u32, lap_rest_min: u32, loop_rest_min: u32) -> (r: Configuration)
        requires
            lap_min <= 59,
            lap_rest_min <= 59,
            loop_rest_min <= 59,
        ensures
            r.lap_duration_sec == lap_min * 60,
            r.lap_rest_sec == lap_rest_min * 60,
            r.loop_rest_sec == loop_rest_min * 60,
            (1 <= lap_min && 1 <= lap_rest_min && 1 <= loop_rest_min) ==> r.valid(),
    {
        Configuration {
            lap_duration_sec: lap_min * 60,
            lap_rest_sec: lap_rest_min * 60,
            loop_rest_sec: loop_rest_min * 60,
        }
    }
}

impl Default for Configuration {
    /// The default session: 25-minute laps, 5-minute lap rests, a 30-minute
    /// loop rest.
    fn default() -> (r: Self)
        ensures
            r == Self::default_spec(),
            r.valid(),
    {
        Configuration { lap_duration_sec: 25 * 60, lap_rest_sec: 5 * 60, loop_rest_sec: 30 * 60 }
    }
}

} // verus!
