use vstd::prelude::*;

use crate::text::{span_text, span_text_of};

verus! {

/// What the time bar measures.
#[derive(Clone, Copy, Debug, PartialEq, Eq, Structural)]
pub enum TimeBarLength {
    /// Time since the start; the bar itself stays empty.
    Timer,
    Minute,
    Hour,
    /// A window of the given number of seconds that starts over when it is full.
    Custom(i64),
    /// A window of the given number of seconds that fills once and then stays
    /// full: a bar that grows toward the end rather than shrinking.
    Countup(i64),
    Day,
}

impl TimeBarLength {
    pub open spec fn spec_as_secs(self) -> int {
        match self {
            TimeBarLength::Minute => 60int,
            TimeBarLength::Day => 86400int,
            TimeBarLength::Hour => 3600int,
            TimeBarLength::Timer => 1int,
            TimeBarLength::Custom(secs) => secs as int,
            TimeBarLength::Countup(secs) => secs as int,
        }
    }

    /// Length of the window in seconds.
    pub fn as_secs(self) -> (r: i64)
        ensures
            r == self.spec_as_secs(),
    {
        match self {
            TimeBarLength::Minute => 60,
            TimeBarLength::Day => 24 * 60 * 60,
            TimeBarLength::Hour => 60 * 60,
            TimeBarLength::Timer => 1,
            TimeBarLength::Custom(secs) | TimeBarLength::Countup(secs) => secs,
        }
    }

    /// The text of the window's length: empty for a timer, else as humantime
    /// writes the span.
    pub open spec fn spec_text(self) -> Seq<char> {
        if self is Timer {
            Seq::empty()
        } else {
            span_text_of(self.spec_as_secs(), 0)
        }
    }

    /// The length as text, such as `1m` or `1h 30m`.
    pub fn text(&self) -> (r: String)
        requires
            self.spec_as_secs() >= 0,
        ensures
            r@ == self.spec_text(),
    {
        match self {
            TimeBarLength::Timer => String::new(),
            _ => span_text(self.as_secs() as u64, 0),
        }
    }
}

impl Default for TimeBarLength {
    fn default() -> (r: Self)
        ensures
            r == TimeBarLength::Minute,
    {
        TimeBarLength::Minute
    }
}

/// How full the time bar is: `num / den`, between zero and one.
#[derive(Clone, Copy, Debug, PartialEq, Eq, Structural)]
pub struct Ratio {
    pub num: u64,
    pub den: u64,
}

impl Ratio {
    pub open spec fn wf(self) -> bool {
        0 < self.den && self.num <= self.den
    }

    pub open spec fn is_full(self) -> bool {
        self.num == self.den
    }

    /// Less than a millionth away from a full bar.
    pub open spec fn spec_near_full(self) -> bool {
        (self.den - self.num) * 1_000_000 < self.den
    }

    pub fn zero() -> (r: Ratio)
        ensures
            r == (Ratio { num: 0, den: 1 }),
    {
        Ratio { num: 0, den: 1 }
    }

    pub fn near_full(&self) -> (r: bool)
        requires
            self.wf(),
        ensures
            r == self.spec_near_full(),
    {
        let gap = self.den - self.num;
        if gap == 0 {
            true
        } else if gap > self.den / 1_000_000 {
            false
        } else {
            gap * 1_000_000 < self.den
        }
    }
}

/// The fill of a window of `len` seconds after `elapsed` whole seconds,
/// clamped to lie between empty and full. A window without length is full as
/// soon as any time has passed.
pub open spec fn ratio_of(elapsed: int, len: int) -> Ratio {
    if len > 0 {
        Ratio {
            num: (if elapsed <= 0 {
                0
            } else if elapsed >= len {
                len
            } else {
                elapsed
            }) as u64,
            den: len as u64,
        }
    } else if elapsed > 0 {
        Ratio { num: 1, den: 1 }
    } else {
        Ratio { num: 0, den: 1 }
    }
}

/// The fill of a window of `len` seconds after `elapsed` whole seconds.
pub fn ratio(elapsed: i64, len: i64) -> (r: Ratio)
    ensures
        r == ratio_of(elapsed as int, len as int),
        r.wf(),
{
    if len > 0 {
        let num = if elapsed <= 0 {
            0
        } else if elapsed >= len {
            len
        } else {
            elapsed
        };
        Ratio { num: num as u64, den: len as u64 }
    } else if elapsed > 0 {
        Ratio { num: 1, den: 1 }
    } else {
        Ratio::zero()
    }
}

} // verus!
