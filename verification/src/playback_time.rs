use vstd::prelude::*;

verus! {

/// Nanoseconds in one second.
pub const NANOS_PER_SECOND: u128 = 1_000_000_000;

/// Seconds in one minute.
pub const SECONDS_PER_MINUTE: u128 = 60;

/// A position in a track, or the time played so far, as a whole number of
/// nanoseconds.
#[derive(Clone, Copy, Debug, PartialEq, Eq, Structural)]
pub struct PlaybackTime {
    pub nanos: u128,
}

impl PlaybackTime {
    /// The start of a track.
    pub fn zero() -> (time: Self)
        ensures
            time.nanos == 0,
    {
        PlaybackTime { nanos: 0 }
    }

    /// The whole seconds played, fractions dropped.
    pub open spec fn spec_whole_seconds(self) -> int {
        self.nanos as int / 1_000_000_000
    }

    /// The whole minutes played: the left-hand part of a `minutes:seconds`
    /// display.
    pub fn minutes(&self) -> (minutes: u128)
        ensures
            minutes == self.spec_whole_seconds() / 60,
    {
        self.nanos / NANOS_PER_SECOND / SECONDS_PER_MINUTE
    }

    /// The seconds played within the current minute: the right-hand part of a
    /// `minutes:seconds` display.
    pub fn seconds(&self) -> (seconds: u128)
        ensures
            seconds == self.spec_whole_seconds() % 60,
            seconds < 60,
    {
        self.nanos / NANOS_PER_SECOND % SECONDS_PER_MINUTE
    }
}

} // verus!
