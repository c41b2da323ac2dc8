//! The two settings of the reminder and the durations they stand for.

use vstd::prelude::*;

verus! {

/// Shortest work interval, in minutes.
pub const MIN_WORK_MINUTES: u8 = 1;

/// Longest work interval, in minutes.
pub const MAX_WORK_MINUTES: u8 = 60;

/// Shortest rest interval, in seconds.
pub const MIN_REST_SECONDS: u8 = 5;

/// Longest rest interval, in seconds.
pub const MAX_REST_SECONDS: u8 = 60;

/// Work interval of a fresh reminder, in minutes.
pub const DEFAULT_WORK_MINUTES: u8 = 20;

/// Rest interval of a fresh reminder, in seconds.
pub const DEFAULT_REST_SECONDS: u8 = 20;

/// Milliseconds in one second.
pub const MILLIS_PER_SECOND: u64 = 1000;

/// Milliseconds in one minute.
pub const MILLIS_PER_MINUTE: u64 = 60000;

/// Which of the two settings a change is about.
#[derive(Clone, Copy, Debug, PartialEq, Eq, Structural)]
pub enum Setting {
    /// The length of the work interval, in minutes.
    Work,
    /// The length of the rest interval, in seconds.
    Rest,
}

/// The settings as the user left them. The values are kept as they were
/// given; [`Parameters::clamped`] brings them into range where a phase is
/// about to be timed by them.
#[derive(Clone, Copy, Debug, PartialEq, Eq, Structural)]
pub struct Parameters {
    /// Length of the work interval, in minutes.
    pub work_minutes: u8,
    /// Length of the rest interval, in seconds.
    pub rest_seconds: u8,
}

/// `value` brought into `low ..= high`.
pub open spec fn clamp_to(value: int, low: int, high: int) -> int {
    if value < low {
        low
    } else if value > high {
        high
    } else {
        value
    }
}

impl Parameters {
    /// Both settings lie in their ranges.
    pub open spec fn in_range(self) -> bool {
        &&& MIN_WORK_MINUTES <= self.work_minutes <= MAX_WORK_MINUTES
        &&& MIN_REST_SECONDS <= self.rest_seconds <= MAX_REST_SECONDS
    }

    /// The nearest settings that lie in range.
    pub open spec fn clamped_spec(self) -> Parameters {
        Parameters {
            work_minutes: clamp_to(
                self.work_minutes as int,
                MIN_WORK_MINUTES as int,
                MAX_WORK_MINUTES as int,
            ) as u8,
            rest_seconds: clamp_to(
                self.rest_seconds as int,
                MIN_REST_SECONDS as int,
                MAX_REST_SECONDS as int,
            ) as u8,
        }
    }

    /// These settings with one of them replaced.
    pub open spec fn with_spec(self, which: Setting, value: u8) -> Parameters {
        match which {
            Setting::Work => Parameters { work_minutes: value, rest_seconds: self.rest_seconds },
            Setting::Rest => Parameters { work_minutes: self.work_minutes, rest_seconds: value },
        }
    }

    /// The work interval that these settings give once clamped, in milliseconds.
    pub open spec fn work_millis_spec(self) -> int {
        self.clamped_spec().work_minutes * MILLIS_PER_MINUTE
    }

    /// The rest interval that these settings give once clamped, in milliseconds.
    pub open spec fn rest_millis_spec(self) -> int {
        self.clamped_spec().rest_seconds * MILLIS_PER_SECOND
    }

    /// Settings from the two raw values, kept as given.
    pub fn new(work_minutes: u8, rest_seconds: u8) -> (p: Parameters)
        ensures
            p.work_minutes == work_minutes,
            p.rest_seconds == rest_seconds,
    {
        Parameters { work_minutes, rest_seconds }
    }

    /// Whether both settings lie in their ranges.
    pub fn is_in_range(&self) -> (ok: bool)
        ensures
            ok == self.in_range(),
    {
        MIN_WORK_MINUTES <= self.work_minutes && self.work_minutes <= MAX_WORK_MINUTES
            && MIN_REST_SECONDS <= self.rest_seconds && self.rest_seconds <= MAX_REST_SECONDS
    }

    /// The nearest settings in range: a value below its range becomes the
    /// lowest allowed, one above it the highest, one inside it stays.
    pub fn clamped(&self) -> (p: Parameters)
        ensures
            p == self.clamped_spec(),
            p.in_range(),
            self.in_range() ==> p == *self,
    {
        let work_minutes: u8 = if self.work_minutes < MIN_WORK_MINUTES {
            MIN_WORK_MINUTES
        } else if self.work_minutes > MAX_WORK_MINUTES {
            MAX_WORK_MINUTES
        } else {
            self.work_minutes
        };
        let rest_seconds: u8 = if self.rest_seconds < MIN_REST_SECONDS {
            MIN_REST_SECONDS
        } else if self.rest_seconds > MAX_REST_SECONDS {
            MAX_REST_SECONDS
        } else {
            self.rest_seconds
        };
        Parameters { work_minutes, rest_seconds }
    }

    /// These settings with one of them replaced by `value`, kept as given.
    pub fn with(&self, which: Setting, value: u8) -> (p: Parameters)
        ensures
            p == self.with_spec(which, value),
    {
        match which {
            Setting::Work => Parameters { work_minutes: value, rest_seconds: self.rest_seconds },
            Setting::Rest => Parameters { work_minutes: self.work_minutes, rest_seconds: value },
        }
    }

    /// Length of a work phase timed by these settings, in milliseconds:
    /// the clamped minutes times 60 000.
    pub fn work_millis(&self) -> (ms: u64)
        ensures
            ms == self.work_millis_spec(),
            MIN_WORK_MINUTES * MILLIS_PER_MINUTE <= ms <= MAX_WORK_MINUTES * MILLIS_PER_MINUTE,
    {
        let p = self.clamped();
        let minutes: u64 = p.work_minutes as u64;
        minutes * MILLIS_PER_MINUTE
    }

    /// Length of a rest phase timed by these settings, in milliseconds:
    /// the clamped seconds times 1 000.
    pub fn rest_millis(&self) -> (ms: u64)
        ensures
            ms == self.rest_millis_spec(),
            MIN_REST_SECONDS * MILLIS_PER_SECOND <= ms <= MAX_REST_SECONDS * MILLIS_PER_SECOND,
    {
        let p = self.clamped();
        let seconds: u64 = p.rest_seconds as u64;
        seconds * MILLIS_PER_SECOND
    }
}

impl Default for Parameters {
    /// Twenty minutes of work, twenty seconds of rest.
    fn default() -> (p: Parameters)
        ensures
            p.work_minutes == DEFAULT_WORK_MINUTES,
            p.rest_seconds == DEFAULT_REST_SECONDS,
            p.in_range(),
    {
        Parameters { work_minutes: DEFAULT_WORK_MINUTES, rest_seconds: DEFAULT_REST_SECONDS }
    }
}

/// Clamping is idempotent and lands in range; settings already in range
/// are left alone.
pub proof fn clamp_is_a_projection(p: Parameters)
    ensures
        p.clamped_spec().in_range(),
        p.clamped_spec().clamped_spec() == p.clamped_spec(),
        p.in_range() <==> p.clamped_spec() == p,
{
}

} // verus!
