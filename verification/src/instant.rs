use vstd::prelude::*;

verus! {

/// Seconds since the Unix epoch of 262142-12-31T23:59:59 UTC, the last whole
/// second of the calendar range this library supports. The range matches the
/// proleptic Gregorian window of the boundary's calendar library, so every
/// instant the core produces can be rendered as a calendar date.
pub const MAX_EPOCH_SECS: i64 = 8210266876799;

/// Seconds since the Unix epoch of -262143-01-01T00:00:00 UTC, the first
/// whole second of the supported calendar range.
pub const MIN_EPOCH_SECS: i64 = -8334601315200;

/// Strict upper bound on the subsecond field of an instant. Two billion
/// rather than one: an instant inside an inserted leap second carries the
/// extra second in its subsecond offset.
pub const MAX_SUBSEC_NANOS: u32 = 2_000_000_000;

/// Day number of a proleptic Gregorian calendar date, counted from the Unix
/// epoch (1970-01-01 is day 0), by the standard days-from-civil construction
/// over 400-year eras.
pub open spec fn spec_days_from_civil(y: int, m: int, d: int) -> int {
    let yy = if m <= 2 { y - 1 } else { y };
    let era = yy / 400;
    let yoe = yy - era * 400;
    let mp = if m > 2 { m - 3 } else { m + 9 };
    let doy = (153 * mp + 2) / 5 + d - 1;
    let doe = yoe * 365 + yoe / 4 - yoe / 100 + doy;
    era * 146097 + doe - 719468
}

/// Seconds since the Unix epoch of the given calendar date and time of day.
pub open spec fn spec_epoch_secs(y: int, m: int, d: int, h: int, mi: int, s: int) -> int {
    spec_days_from_civil(y, m, d) * 86400 + h * 3600 + mi * 60 + s
}

/// An absolute instant, timezone-normalized to UTC: whole seconds since the
/// Unix epoch paired with a subsecond offset in nanoseconds.
#[derive(Clone, Copy, Debug, PartialEq, Eq, Structural)]
pub struct Instant {
    pub secs: i64,
    pub nanos: u32,
}

impl Instant {
    /// The instant lies in the supported calendar range and its subsecond
    /// offset is in bounds.
    pub open spec fn wf(self) -> bool {
        &&& MIN_EPOCH_SECS <= self.secs <= MAX_EPOCH_SECS
        &&& self.nanos < MAX_SUBSEC_NANOS
    }

    /// Time order: earlier seconds, or equal seconds and an earlier
    /// subsecond offset.
    pub open spec fn spec_lt(self, other: Instant) -> bool {
        self.secs < other.secs || (self.secs == other.secs && self.nanos < other.nanos)
    }

    /// True when `self` is strictly earlier than `other`.
    pub fn lt(&self, other: &Instant) -> (r: bool)
        ensures
            r == self.spec_lt(*other),
    {
        self.secs < other.secs || (self.secs == other.secs && self.nanos < other.nanos)
    }

    /// True when `self` is at or after `other`.
    pub fn ge(&self, other: &Instant) -> (r: bool)
        ensures
            r == !self.spec_lt(*other),
    {
        !self.lt(other)
    }

    /// Adds a non-negative whole number of seconds, leaving the subsecond
    /// offset untouched; `None` exactly when the sum would land past the end
    /// of the supported calendar range.
    pub fn checked_add_secs(&self, delta: i64) -> (r: Option<Instant>)
        requires
            self.wf(),
            delta >= 0,
        ensures
            r == if self.secs + delta <= MAX_EPOCH_SECS {
                Some((Instant { secs: (self.secs + delta) as i64, nanos: self.nanos }))
            } else {
                None::<Instant>
            },
            r matches Some(t) ==> t.wf(),
    {
        if delta <= MAX_EPOCH_SECS - self.secs {
            Some(Instant { secs: self.secs + delta, nanos: self.nanos })
        } else {
            None
        }
    }

    /// Builds the instant at the given UTC calendar date and time of day,
    /// with a zero subsecond offset; `None` exactly when that instant lies
    /// past the end of the supported calendar range.
    pub fn from_ymd_hms(y: u32, m: u32, d: u32, h: u32, mi: u32, s: u32) -> (r: Option<Instant>)
        requires
            1 <= y <= 262142,
            1 <= m <= 12,
            1 <= d <= 31,
            h < 24,
            mi < 60,
            s < 60,
        ensures
            r == if spec_epoch_secs(y as int, m as int, d as int, h as int, mi as int, s as int)
                <= MAX_EPOCH_SECS {
                Some(
                    (Instant {
                        secs: spec_epoch_secs(
                            y as int,
                            m as int,
                            d as int,
                            h as int,
                            mi as int,
                            s as int,
                        ) as i64,
                        nanos: 0u32,
                    }),
                )
            } else {
                None::<Instant>
            },
            r matches Some(t) ==> t.wf(),
    {
        let yy: u64 = if m <= 2 { (y - 1) as u64 } else { y as u64 };
        let era: u64 = yy / 400;
        let yoe: u64 = yy - era * 400;
        let mp: u64 = if m > 2 { (m - 3) as u64 } else { (m + 9) as u64 };
        let doy: u64 = (153 * mp + 2) / 5 + (d - 1) as u64;
        let doe: u64 = yoe * 365 + yoe / 4 - yoe / 100 + doy;
        let days: i64 = (era * 146097 + doe) as i64 - 719468;
        let tod: i64 = (h * 3600 + mi * 60 + s) as i64;
        let secs: i64 = days * 86400 + tod;
        if secs <= MAX_EPOCH_SECS {
            Some(Instant { secs, nanos: 0 })
        } else {
            None
        }
    }
}

} // verus!
