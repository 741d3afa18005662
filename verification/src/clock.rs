//! Instants, and the one place where the library reads the wall clock. The
//! clock is read through the standard library, which hands a clock before
//! 1970 back as a value.

use vstd::prelude::*;

verus! {

/// An instant in UTC: whole seconds since the Unix epoch and the nanoseconds
/// into that second.
#[derive(Clone, Copy, Debug, PartialEq, Eq, Structural)]
pub struct Timestamp {
    pub secs: i64,
    pub nanos: u32,
}

impl Timestamp {
    /// The instant `seconds` later (earlier, if negative), as a value of the model.
    pub open spec fn later(self, seconds: int) -> (int, u32) {
        (self.secs + seconds, self.nanos)
    }

    /// Whether the instant `seconds` later can still be written as a `Timestamp`.
    pub open spec fn can_add(self, seconds: int) -> bool {
        i64::MIN <= self.secs + seconds <= i64::MAX
    }

    /// The instant `seconds` after this one; `None` where it would leave the
    /// range of a `Timestamp`.
    pub fn plus_seconds(&self, seconds: i32) -> (result: Option<Timestamp>)
        ensures
            result is Some <==> self.can_add(seconds as int),
            result matches Some(t) ==> (t.secs as int, t.nanos) == self.later(seconds as int),
    {
        let s: i64 = seconds as i64;
        match self.secs.checked_add(s) {
            Some(secs) => Some(Timestamp { secs, nanos: self.nanos }),
            None => None,
        }
    }
}

/// The system's measure of time, carried from the clock to the reading.
#[verifier::external_type_specification]
#[verifier::external_body]
pub struct ExSystemTime(std::time::SystemTime);

/// What `duration_since` gives for an instant before the one it is measured
/// from; it holds the distance.
#[verifier::external_type_specification]
#[verifier::external_body]
pub struct ExSystemTimeError(std::time::SystemTimeError);

/// `SystemTime::now` reads the system clock. Nothing is claimed of the
/// value: two calls may differ in any way.
pub assume_specification[ std::time::SystemTime::now ]() -> std::time::SystemTime;

/// `SystemTime::duration_since` measures the distance between two instants,
/// as `Ok` where the second is not later than the first and as `Err`
/// otherwise. Nothing is claimed of the value.
pub assume_specification[ std::time::SystemTime::duration_since ](
    instant: &std::time::SystemTime,
    earlier: std::time::SystemTime,
) -> Result<std::time::Duration, std::time::SystemTimeError>;

/// `SystemTimeError::duration` gives the distance by which the instant lay
/// before. Nothing is claimed of the value.
pub assume_specification[ std::time::SystemTimeError::duration ](
    error: &std::time::SystemTimeError,
) -> std::time::Duration;

/// `Duration::as_secs` gives the whole seconds of a distance. Nothing is
/// claimed of the value.
pub assume_specification[ std::time::Duration::as_secs ](distance: &std::time::Duration) -> u64;

/// `Duration::subsec_nanos` gives the nanoseconds of a distance beyond its
/// whole seconds. Nothing is claimed of the value.
pub assume_specification[ std::time::Duration::subsec_nanos ](
    distance: &std::time::Duration,
) -> u32;

/// Hands out `std::time::UNIX_EPOCH`, the instant that clock readings are
/// measured from.
#[verifier::external_body]
fn unix_epoch() -> std::time::SystemTime {
    std::time::UNIX_EPOCH
}

/// What the clock shows, measured from the Unix epoch: whole seconds and
/// the nanoseconds beyond them, after the epoch or before it.
#[derive(Clone, Copy, Debug, PartialEq, Eq, Structural)]
pub enum ClockReading {
    After { secs: u64, nanos: u32 },
    Before { secs: u64, nanos: u32 },
}

/// The instant that a reading stands for.
///
/// After the epoch it is the reading itself. Before the epoch the seconds
/// are negative and the nanoseconds still count forwards, so a reading of
/// `s` seconds and `n > 0` nanoseconds before the epoch is the instant
/// `-s - 1` seconds and `1_000_000_000 - n` nanoseconds. Seconds beyond the
/// range of a `Timestamp` are held at its end.
pub open spec fn instant_of(reading: ClockReading) -> Timestamp {
    match reading {
        ClockReading::After { secs, nanos } => Timestamp {
            secs: if secs <= i64::MAX {
                secs as i64
            } else {
                i64::MAX
            },
            nanos,
        },
        ClockReading::Before { secs, nanos } => if 0 < nanos < 1_000_000_000 {
            Timestamp {
                secs: if secs < i64::MAX {
                    (-secs - 1) as i64
                } else {
                    i64::MIN
                },
                nanos: (1_000_000_000 - nanos) as u32,
            }
        } else {
            Timestamp {
                secs: if secs <= i64::MAX {
                    (-secs) as i64
                } else {
                    i64::MIN
                },
                nanos: 0,
            }
        },
    }
}

impl ClockReading {
    /// The instant that the reading stands for.
    pub fn instant(&self) -> (t: Timestamp)
        ensures
            t == instant_of(*self),
            self is Before && (self->Before_secs > 0 || 0 < self->Before_nanos < 1_000_000_000)
                ==> t.secs < 0,
            self is After ==> t.secs >= 0,
    {
        match *self {
            ClockReading::After { secs, nanos } => Timestamp {
                secs: if secs <= i64::MAX as u64 {
                    secs as i64
                } else {
                    i64::MAX
                },
                nanos,
            },
            ClockReading::Before { secs, nanos } => if 0 < nanos && nanos < 1_000_000_000 {
                Timestamp {
                    secs: if secs < i64::MAX as u64 {
                        -(secs as i64) - 1
                    } else {
                        i64::MIN
                    },
                    nanos: 1_000_000_000 - nanos,
                }
            } else {
                Timestamp {
                    secs: if secs <= i64::MAX as u64 {
                        -(secs as i64)
                    } else {
                        i64::MIN
                    },
                    nanos: 0,
                }
            },
        }
    }
}

/// Reads the system clock against the Unix epoch.
pub fn read_clock() -> ClockReading {
    let now = std::time::SystemTime::now();
    match now.duration_since(unix_epoch()) {
        Ok(distance) => ClockReading::After {
            secs: distance.as_secs(),
            nanos: distance.subsec_nanos(),
        },
        Err(error) => {
            let distance = error.duration();
            ClockReading::Before { secs: distance.as_secs(), nanos: distance.subsec_nanos() }
        },
    }
}

/// Reads the system clock as an instant. Nothing is known of the instant
/// but that it stands for some reading; a clock that is set before 1970
/// gives an instant with negative seconds.
pub fn utc_now() -> (now: Timestamp)
    ensures
        exists|reading: ClockReading| now == #[trigger] instant_of(reading),
{
    read_clock().instant()
}

} // verus!
