use vstd::prelude::*;

verus! {

/// Largest distance from the Unix epoch, in seconds, that a valid moment may
/// have: some 250,000 years, inside the range of dates that chrono can write.
pub const SECS_LIMIT: i64 = 8_000_000_000_000;

/// Largest distance of a local offset from UTC, in seconds.
pub const OFFSET_LIMIT: i32 = 86_399;

/// How far past the valid range derived moments may lie, in seconds.
pub const SPAN_SLACK: i64 = 3 * 86400;

pub const NANOS_PER_SEC: u32 = 1_000_000_000;

/// A reading of the wall clock: whole seconds since the Unix epoch, the
/// sub-second part in nanoseconds, and the local offset from UTC in seconds.
#[derive(Clone, Copy, Debug, PartialEq, Eq, Structural)]
pub struct Moment {
    pub secs: i64,
    pub nanos: u32,
    pub offset: i32,
}

/// Whole multiples of `unit` in `e`, rounded toward zero.
pub open spec fn toward_zero(e: int, unit: int) -> int
    recommends
        unit > 0,
{
    if e >= 0 {
        e / unit
    } else {
        -((-e) / unit)
    }
}

impl Moment {
    /// A valid reading: inside the range of dates, with a sub-second part of
    /// less than a second (no leap second) and an offset of less than a day.
    pub open spec fn wf(self) -> bool {
        &&& -SECS_LIMIT <= self.secs <= SECS_LIMIT
        &&& self.nanos < NANOS_PER_SEC
        &&& -OFFSET_LIMIT <= self.offset <= OFFSET_LIMIT
    }

    /// Within a day of the valid range: where the anchors of the time bar lie.
    pub open spec fn near_range(self) -> bool {
        &&& -SECS_LIMIT - 86400 <= self.secs <= SECS_LIMIT + 86400
        &&& self.nanos < NANOS_PER_SEC
        &&& -OFFSET_LIMIT <= self.offset <= OFFSET_LIMIT
    }

    /// Within a few days of the valid range: what the anchors and the
    /// moments derived from them stay in.
    pub open spec fn in_span(self) -> bool {
        &&& -SECS_LIMIT - SPAN_SLACK <= self.secs <= SECS_LIMIT + SPAN_SLACK
        &&& self.nanos < NANOS_PER_SEC
        &&& -OFFSET_LIMIT <= self.offset <= OFFSET_LIMIT
    }

    /// Seconds since the epoch as read on the local wall clock.
    pub open spec fn local_secs(self) -> int {
        self.secs + self.offset
    }

    pub open spec fn second_of_minute(self) -> int {
        self.local_secs() % 60
    }

    pub open spec fn minute_of_hour(self) -> int {
        (self.local_secs() / 60) % 60
    }

    pub open spec fn hour_of_day(self) -> int {
        (self.local_secs() / 3600) % 24
    }

    pub open spec fn total_nanos(self) -> int {
        self.secs * NANOS_PER_SEC + self.nanos
    }

    /// Nanoseconds from `self` to `later` (negative if `later` is earlier).
    pub open spec fn nanos_until(self, later: Moment) -> int {
        later.total_nanos() - self.total_nanos()
    }

    /// Whole seconds from `self` to `later`, rounded toward zero.
    pub open spec fn secs_until(self, later: Moment) -> int {
        toward_zero(self.nanos_until(later), NANOS_PER_SEC as int)
    }

    /// The same instant with the sub-second part cleared.
    pub open spec fn spec_whole(self) -> Moment {
        Moment { secs: self.secs, nanos: 0, offset: self.offset }
    }

    /// The nearest whole second, halves rounded up.
    pub open spec fn spec_rounded(self) -> Moment {
        Moment {
            secs: if self.nanos >= NANOS_PER_SEC / 2 { self.secs + 1 } else { self.secs as int } as i64,
            nanos: 0,
            offset: self.offset,
        }
    }

    pub open spec fn spec_plus_secs(self, n: int) -> Moment {
        Moment { secs: (self.secs + n) as i64, nanos: self.nanos, offset: self.offset }
    }

    /// The start of the local minute that holds `self`.
    pub open spec fn spec_start_of_minute(self) -> Moment {
        Moment { secs: (self.secs - self.second_of_minute()) as i64, nanos: 0, offset: self.offset }
    }

    /// The start of the local hour that holds `self`.
    pub open spec fn spec_start_of_hour(self) -> Moment {
        Moment {
            secs: (self.secs - self.local_secs() % 3600) as i64,
            nanos: 0,
            offset: self.offset,
        }
    }

    /// The start of the local day that holds `self`.
    pub open spec fn spec_start_of_day(self) -> Moment {
        Moment {
            secs: (self.secs - self.local_secs() % 86400) as i64,
            nanos: 0,
            offset: self.offset,
        }
    }

    pub fn is_valid(&self) -> (r: bool)
        ensures
            r == self.wf(),
    {
        -SECS_LIMIT <= self.secs && self.secs <= SECS_LIMIT && self.nanos < NANOS_PER_SEC
            && -OFFSET_LIMIT <= self.offset && self.offset <= OFFSET_LIMIT
    }

    pub fn local(&self) -> (r: i64)
        requires
            self.in_span(),
        ensures
            r == self.local_secs(),
    {
        self.secs + self.offset as i64
    }

    /// Second of the local minute, in `0..60`.
    pub fn second(&self) -> (r: i64)
        requires
            self.in_span(),
        ensures
            r == self.second_of_minute(),
            0 <= r < 60,
    {
        self.local().checked_rem_euclid(60).unwrap()
    }

    /// Minute of the local hour, in `0..60`.
    pub fn minute(&self) -> (r: i64)
        requires
            self.in_span(),
        ensures
            r == self.minute_of_hour(),
            0 <= r < 60,
    {
        let m = self.local().checked_div_euclid(60).unwrap();
        m.checked_rem_euclid(60).unwrap()
    }

    /// Hour of the local day, in `0..24`.
    pub fn hour(&self) -> (r: i64)
        requires
            self.in_span(),
        ensures
            r == self.hour_of_day(),
            0 <= r < 24,
    {
        let h = self.local().checked_div_euclid(3600).unwrap();
        h.checked_rem_euclid(24).unwrap()
    }

    /// Nanoseconds from `self` to `later`.
    pub fn nanos_between(&self, later: &Moment) -> (r: i128)
        requires
            self.in_span(),
            later.in_span(),
        ensures
            r == self.nanos_until(*later),
    {
        proof {
            lemma_nanos_bounded(self.secs as int);
            lemma_nanos_bounded(later.secs as int);
        }
        let a = self.secs as i128 * NANOS_PER_SEC as i128 + self.nanos as i128;
        let b = later.secs as i128 * NANOS_PER_SEC as i128 + later.nanos as i128;
        b - a
    }

    /// Whole seconds from `self` to `later`, rounded toward zero.
    pub fn secs_between(&self, later: &Moment) -> (r: i64)
        requires
            self.in_span(),
            later.in_span(),
        ensures
            r == self.secs_until(*later),
    {
        let e = self.nanos_between(later);
        let unit: i128 = NANOS_PER_SEC as i128;
        if e >= 0 {
            (e / unit) as i64
        } else {
            -((-e) / unit) as i64
        }
    }

    /// The same instant with the sub-second part cleared.
    pub fn whole(&self) -> (r: Moment)
        ensures
            r == self.spec_whole(),
    {
        Moment { secs: self.secs, nanos: 0, offset: self.offset }
    }

    /// The nearest whole second, halves rounded up.
    pub fn rounded(&self) -> (r: Moment)
        requires
            self.in_span(),
        ensures
            r == self.spec_rounded(),
    {
        let secs = if self.nanos >= NANOS_PER_SEC / 2 { self.secs + 1 } else { self.secs };
        Moment { secs, nanos: 0, offset: self.offset }
    }

    /// `n` seconds later.
    pub fn plus_secs(&self, n: i64) -> (r: Moment)
        requires
            i64::MIN <= self.secs + n <= i64::MAX,
        ensures
            r == self.spec_plus_secs(n as int),
    {
        Moment { secs: self.secs + n, nanos: self.nanos, offset: self.offset }
    }

    pub fn start_of_minute(&self) -> (r: Moment)
        requires
            self.in_span(),
        ensures
            r == self.spec_start_of_minute(),
    {
        Moment { secs: self.secs - self.second(), nanos: 0, offset: self.offset }
    }

    pub fn start_of_hour(&self) -> (r: Moment)
        requires
            self.in_span(),
        ensures
            r == self.spec_start_of_hour(),
    {
        let into = self.local().checked_rem_euclid(3600).unwrap();
        Moment { secs: self.secs - into, nanos: 0, offset: self.offset }
    }

    pub fn start_of_day(&self) -> (r: Moment)
        requires
            self.in_span(),
        ensures
            r == self.spec_start_of_day(),
    {
        let into = self.local().checked_rem_euclid(86400).unwrap();
        Moment { secs: self.secs - into, nanos: 0, offset: self.offset }
    }
}

proof fn lemma_nanos_bounded(s: int)
    requires
        -SECS_LIMIT - SPAN_SLACK <= s <= SECS_LIMIT + SPAN_SLACK,
    ensures
        -(SECS_LIMIT + SPAN_SLACK) * NANOS_PER_SEC <= s * NANOS_PER_SEC <= (SECS_LIMIT
            + SPAN_SLACK) * NANOS_PER_SEC,
{
    assert(-8_000_000_259_200 * 1_000_000_000 <= s * 1_000_000_000 <= 8_000_000_259_200
        * 1_000_000_000) by (nonlinear_arith)
        requires
            -8_000_000_259_200 <= s <= 8_000_000_259_200,
    ;
}

} // verus!
