use vstd::prelude::*;

use crate::frame::{after_update, texts_differ, Data, FrameView};
use crate::moment::{toward_zero, Moment};
use crate::text::{clock_text, clock_text_of, date_text, date_text_of};
use crate::timebar::{ratio, ratio_of, Ratio, TimeBarLength};

verus! {

/// Why the clock could not start.
#[derive(Clone, Copy, Debug, PartialEq, Eq, Structural)]
pub enum ClockError {
    /// The wall clock gave a reading outside the range of valid moments, so no
    /// anchor could be set.
    InvalidTime,
}

/// The clock: which time bar was asked for, the moment the bar measures from,
/// and whether the end of a countdown was announced.
#[derive(Clone, Copy, Debug, PartialEq, Eq, Structural)]
pub struct Clock {
    /// Show the time since the start.
    pub timer: bool,
    /// Track the progress of the minute.
    pub minute: bool,
    /// Track the progress of the day.
    pub day: bool,
    /// Track the progress of the hour.
    pub hour: bool,
    /// Track a repeating window of this many seconds.
    pub custom: Option<i64>,
    /// Count up once to this many seconds.
    pub countdown: Option<i64>,
    /// Where the current window of the time bar starts.
    pub last_reset: Option<Moment>,
    /// Whether the end of the countdown was announced.
    pub did_notify: bool,
}

/// A key press, as far as the clock tells keys apart.
#[derive(Clone, Copy, Debug, PartialEq, Eq, Structural)]
pub enum Key {
    Char(char),
    Esc,
    Other,
}

/// Whether a key press ends the clock: `q`, Escape, or Control with `c`.
pub fn is_quit_key(key: Key, control: bool) -> (r: bool)
    ensures
        r == (key == Key::Char('q') || key == Key::Esc || (control && key == Key::Char('c'))),
{
    match key {
        Key::Char('q') | Key::Esc => true,
        Key::Char('c') => control,
        _ => false,
    }
}

/// Where the first window starts for a clock started at `now`: the start of
/// the current minute, hour or day for those bars, else `now` itself.
pub open spec fn initial_anchor(kind: Option<TimeBarLength>, now: Moment) -> Moment {
    match kind {
        Some(TimeBarLength::Minute) => now.spec_start_of_minute(),
        Some(TimeBarLength::Hour) => now.spec_start_of_hour(),
        Some(TimeBarLength::Day) => now.spec_start_of_day(),
        _ => now,
    }
}

/// Where the window starts after a tick at `now` when it started at `last`.
///
/// A custom window starts over at `now`, to the nearest second, once its
/// length has passed and at least a tenth of a second since it last started.
/// A minute, hour or day bar starts over, with the sub-second part cleared,
/// at the first tick of a new minute, hour or day, and only once at least a
/// second, a minute or an hour has passed since it last started, so that
/// the many ticks inside that first second, minute or hour start it over
/// once. A countdown and a timer never start over.
pub open spec fn next_anchor(kind: TimeBarLength, last: Moment, now: Moment) -> Moment {
    let e = last.nanos_until(now);
    match kind {
        TimeBarLength::Custom(n) => if e >= 100_000_000 && last.secs_until(now) >= n {
            now.spec_rounded()
        } else {
            last
        },
        TimeBarLength::Minute => if e >= 1_000_000_000 && now.second_of_minute() == 0 {
            now.spec_whole()
        } else {
            last
        },
        TimeBarLength::Hour => if e >= 60_000_000_000 && now.minute_of_hour() == 0 {
            now.spec_whole()
        } else {
            last
        },
        TimeBarLength::Day => if e >= 3_600_000_000_000 && now.hour_of_day() == 0 {
            now.spec_whole()
        } else {
            last
        },
        _ => last,
    }
}

/// Whether a check of the notification gate with `ratio` announces the end:
/// only for a countdown, only once, and only when the bar is full to within a
/// millionth.
pub open spec fn gate_fires(kind: Option<TimeBarLength>, notified: bool, ratio: Ratio) -> bool {
    &&& !notified
    &&& ratio.spec_near_full()
    &&& kind matches Some(TimeBarLength::Countup(_))
}

impl Clock {
    /// The time bar asked for, if any; when several are set, the first of
    /// minute, day, hour, timer, countdown and custom wins.
    pub open spec fn spec_timebar_len(self) -> Option<TimeBarLength> {
        if self.minute {
            Some(TimeBarLength::Minute)
        } else if self.day {
            Some(TimeBarLength::Day)
        } else if self.hour {
            Some(TimeBarLength::Hour)
        } else if self.timer {
            Some(TimeBarLength::Timer)
        } else if self.countdown is Some {
            Some(TimeBarLength::Countup(self.countdown->Some_0))
        } else if self.custom is Some {
            Some(TimeBarLength::Custom(self.custom->Some_0))
        } else {
            None
        }
    }

    pub open spec fn wf(self) -> bool {
        self.last_reset matches Some(a) ==> a.near_range()
    }

    /// Set up: a time bar that was asked for has its anchor.
    pub open spec fn ready(self) -> bool {
        &&& self.wf()
        &&& self.spec_timebar_len() is Some ==> self.last_reset is Some
    }

    /// The fill of the time bar at `now`, if a bar was asked for.
    pub open spec fn spec_ratio(self, now: Moment) -> Option<Ratio> {
        match self.spec_timebar_len() {
            None => None,
            Some(k) => Some(ratio_of(self.last_reset->Some_0.secs_until(now), k.spec_as_secs())),
        }
    }

    /// The clock after a tick at `now`.
    pub open spec fn spec_after_tick(self, now: Moment) -> Clock {
        match (self.spec_timebar_len(), self.last_reset) {
            (Some(k), Some(a)) => Clock { last_reset: Some(next_anchor(k, a, now)), ..self },
            _ => self,
        }
    }

    pub fn timebar_len(&self) -> (r: Option<TimeBarLength>)
        ensures
            r == self.spec_timebar_len(),
    {
        if self.minute {
            Some(TimeBarLength::Minute)
        } else if self.day {
            Some(TimeBarLength::Day)
        } else if self.hour {
            Some(TimeBarLength::Hour)
        } else if self.timer {
            Some(TimeBarLength::Timer)
        } else if let Some(secs) = self.countdown {
            Some(TimeBarLength::Countup(secs))
        } else if let Some(secs) = self.custom {
            Some(TimeBarLength::Custom(secs))
        } else {
            None
        }
    }

    /// The fill of the time bar at `current_time`, if a bar was asked for:
    /// the whole seconds since the anchor over the window's length, clamped
    /// between empty and full.
    ///
    /// The clock passes a moment one second past the sampled time, so that a
    /// minute bar reads empty at second 0, half at second 30 and full when the
    /// next minute begins.
    pub fn timebar_ratio(&self, current_time: Moment) -> (r: Option<Ratio>)
        requires
            self.ready(),
            current_time.in_span(),
        ensures
            r == self.spec_ratio(current_time),
            r matches Some(q) ==> q.wf(),
    {
        let len = match self.timebar_len() {
            Some(len) => len,
            None => return None,
        };
        let anchor = self.last_reset.unwrap();
        let since = anchor.secs_between(&current_time);
        Some(ratio(since, len.as_secs()))
    }

    fn setup_last_reset(&mut self, now: Moment)
        requires
            now.wf(),
        ensures
            *final(self) == (Clock {
                last_reset: Some(initial_anchor(old(self).spec_timebar_len(), now)),
                ..*old(self)
            }),
            final(self).ready(),
    {
        let anchor = match self.timebar_len() {
            Some(TimeBarLength::Minute) => now.start_of_minute(),
            Some(TimeBarLength::Hour) => now.start_of_hour(),
            Some(TimeBarLength::Day) => now.start_of_day(),
            _ => now,
        };
        self.last_reset = Some(anchor);
    }

    /// Anchors the time bar at `now`: see [`initial_anchor`]. Fails, leaving
    /// the clock as it was, on a reading of the wall clock that is no valid
    /// moment.
    pub fn setup(&mut self, now: Moment) -> (r: Result<(), ClockError>)
        ensures
            r is Ok <==> now.wf(),
            r is Ok ==> *final(self) == (Clock {
                last_reset: Some(initial_anchor(old(self).spec_timebar_len(), now)),
                ..*old(self)
            }),
            r is Ok ==> final(self).ready(),
            r is Err ==> *final(self) == *old(self) && r == Err::<(), _>(ClockError::InvalidTime),
    {
        if !now.is_valid() {
            return Err(ClockError::InvalidTime);
        }
        self.setup_last_reset(now);
        Ok(())
    }

    /// Starts the window of the time bar over if the tick at `now` calls for
    /// it: see [`next_anchor`].
    pub fn maybe_reset_since_zero(&mut self, now: Moment)
        requires
            old(self).ready(),
            now.wf(),
        ensures
            *final(self) == old(self).spec_after_tick(now),
            final(self).ready(),
    {
        let len = match self.timebar_len() {
            Some(len) => len,
            None => return ,
        };
        let last = self.last_reset.unwrap();
        let e = last.nanos_between(&now);
        let next = match len {
            TimeBarLength::Countup(_) | TimeBarLength::Timer => last,
            TimeBarLength::Custom(n) => {
                if e >= 100_000_000 && last.secs_between(&now) >= n {
                    now.rounded()
                } else {
                    last
                }
            },
            TimeBarLength::Minute => {
                if e >= 1_000_000_000 && now.second() == 0 {
                    now.whole()
                } else {
                    last
                }
            },
            TimeBarLength::Hour => {
                if e >= 60_000_000_000 && now.minute() == 0 {
                    now.whole()
                } else {
                    last
                }
            },
            TimeBarLength::Day => {
                if e >= 3_600_000_000_000 && now.hour() == 0 {
                    now.whole()
                } else {
                    last
                }
            },
        };
        self.last_reset = Some(next);
    }

    /// The work of a tick: moves the window of the time bar forward.
    pub fn on_tick(&mut self, now: Moment)
        requires
            old(self).ready(),
            now.wf(),
        ensures
            *final(self) == old(self).spec_after_tick(now),
            final(self).ready(),
    {
        self.maybe_reset_since_zero(now);
    }

    /// Takes a reading of the wall clock into `data`: the date and time shown
    /// are those of the reading to the nearest second, and the moment and
    /// ratio are those one second later (see [`Clock::timebar_ratio`]).
    /// Tells whether the shown date or time changed, that is whether the
    /// screen is to be drawn again.
    pub fn refresh(&self, data: &mut Data, sampled: Moment) -> (changed: bool)
        requires
            self.ready(),
            old(data).wf(),
            sampled.wf(),
        ensures
            final(data).wf(),
            final(data).view() == after_update(
                old(data).view(),
                sampled.spec_rounded().spec_plus_secs(1),
                FrameView {
                    date: date_text_of(sampled.spec_rounded().local_secs()),
                    time: clock_text_of(sampled.spec_rounded().local_secs()),
                    ratio: self.spec_ratio(sampled.spec_rounded().spec_plus_secs(1)),
                },
            ),
            changed == texts_differ(final(data).view().current, final(data).view().previous),
    {
        let raw = sampled.rounded();
        let local = raw.local();
        let fdate = date_text(local);
        let ftime = clock_text(local);
        let now = raw.plus_secs(1);
        let r = self.timebar_ratio(now);
        data.update(now, fdate, ftime, r);
        data.changed()
    }

    /// The notification gate: tells whether the end of the countdown is to be
    /// announced now (see [`gate_fires`]) and remembers that it was.
    pub fn latch_notification(&mut self, ratio: Ratio) -> (fire: bool)
        requires
            ratio.wf(),
        ensures
            fire == gate_fires(old(self).spec_timebar_len(), old(self).did_notify, ratio),
            *final(self) == (Clock { did_notify: old(self).did_notify || fire, ..*old(self) }),
    {
        if !self.did_notify && ratio.near_full() {
            if let Some(TimeBarLength::Countup(_)) = self.timebar_len() {
                self.did_notify = true;
                return true;
            }
        }
        false
    }
}

/// The clock after ticks at each moment of `ticks` in turn.
pub open spec fn after_ticks(c: Clock, ticks: Seq<Moment>) -> Clock
    decreases ticks.len(),
{
    if ticks.len() == 0 {
        c
    } else {
        after_ticks(c.spec_after_tick(ticks[0]), ticks.drop_first())
    }
}

/// How many times the notification gate fires when it is checked with each
/// ratio of `ratios` in turn, starting from `notified`.
pub open spec fn fire_count(kind: Option<TimeBarLength>, notified: bool, ratios: Seq<Ratio>) -> nat
    decreases ratios.len(),
{
    if ratios.len() == 0 {
        0
    } else {
        let fire = gate_fires(kind, notified, ratios[0]);
        (if fire {
            1nat
        } else {
            0nat
        }) + fire_count(kind, notified || fire, ratios.drop_first())
    }
}

/// For every kind of bar and every anchor and moment, the fill lies between
/// empty and full.
pub proof fn lemma_ratio_within_bounds(kind: TimeBarLength, anchor: Moment, now: Moment)
    ensures
        ratio_of(anchor.secs_until(now), kind.spec_as_secs()).wf(),
{
}

/// With a minute bar anchored at the start of a minute, the bar is empty at
/// the anchor, half full 30 seconds later, 59/60 full 59 seconds later, and
/// full 60 seconds later.
pub proof fn lemma_minute_marks(c: Clock, anchor: Moment)
    requires
        c.spec_timebar_len() == Some(TimeBarLength::Minute),
        c.last_reset == Some(anchor),
        anchor.near_range(),
        anchor.nanos == 0,
        anchor.second_of_minute() == 0,
    ensures
        c.spec_ratio(anchor) == Some(Ratio { num: 0, den: 60 }),
        c.spec_ratio(anchor.spec_plus_secs(30)) == Some(Ratio { num: 30, den: 60 }),
        c.spec_ratio(anchor.spec_plus_secs(59)) == Some(Ratio { num: 59, den: 60 }),
        c.spec_ratio(anchor.spec_plus_secs(60)) == Some(Ratio { num: 60, den: 60 }),
{
}

/// Once a countdown's bar is full it stays full, however much time passes,
/// and no tick moves its anchor.
pub proof fn lemma_countup_stays_full(c: Clock, n: i64, full_at: Moment, later: Moment)
    requires
        c.ready(),
        c.spec_timebar_len() == Some(TimeBarLength::Countup(n)),
        c.spec_ratio(full_at) matches Some(q) && q.is_full(),
        full_at.nanos_until(later) >= 0,
    ensures
        c.spec_after_tick(later) == c,
        c.spec_ratio(later) matches Some(q) && q.is_full(),
{
    let a = c.last_reset->Some_0;
    lemma_toward_zero_monotonic(a.nanos_until(full_at), a.nanos_until(later));
}

proof fn lemma_toward_zero_monotonic(x: int, y: int)
    requires
        x <= y,
    ensures
        toward_zero(x, 1_000_000_000) <= toward_zero(y, 1_000_000_000),
{
    if x >= 0 {
        vstd::arithmetic::div_mod::lemma_div_is_ordered(x, y, 1_000_000_000);
    } else if y >= 0 {
    } else {
        vstd::arithmetic::div_mod::lemma_div_is_ordered(-y, -x, 1_000_000_000);
    }
}

/// A minute bar starts over once per minute boundary: after the tick at `t`
/// started it over, no tick of the same minute does again, however many
/// ticks come.
pub proof fn lemma_minute_reset_once(c: Clock, t: Moment, ticks: Seq<Moment>)
    requires
        c.ready(),
        c.spec_timebar_len() == Some(TimeBarLength::Minute),
        t.wf(),
        c.spec_after_tick(t).last_reset != c.last_reset,
        forall|i: int|
            0 <= i < ticks.len() ==> {
                &&& #[trigger] ticks[i].wf()
                &&& ticks[i].offset == t.offset
                &&& t.nanos_until(ticks[i]) >= 0
                &&& ticks[i].secs < t.secs + 60
            },
    ensures
        after_ticks(c.spec_after_tick(t), ticks) == c.spec_after_tick(t),
    decreases ticks.len(),
{
    let c1 = c.spec_after_tick(t);
    if ticks.len() > 0 {
        let u = ticks[0];
        assert(u.wf());
        assert(c1.spec_after_tick(u) == c1);
        lemma_minute_reset_once(c, t, ticks.drop_first());
    }
}

/// Across a whole run the notification gate fires at most once, and it fires
/// exactly when the bar is a countdown that at some check was full.
pub proof fn lemma_gate_fires_once(kind: Option<TimeBarLength>, ratios: Seq<Ratio>)
    ensures
        fire_count(kind, false, ratios) <= 1,
        fire_count(kind, false, ratios) == 1 <==> (kind matches Some(TimeBarLength::Countup(_))
            && exists|i: int| 0 <= i < ratios.len() && (#[trigger] ratios[i]).spec_near_full()),
        fire_count(kind, true, ratios) == 0,
    decreases ratios.len(),
{
    lemma_gate_silent_once_notified(kind, ratios);
    if ratios.len() > 0 {
        let rest = ratios.drop_first();
        lemma_gate_fires_once(kind, rest);
        if kind matches Some(TimeBarLength::Countup(_)) && !ratios[0].spec_near_full() {
            if exists|i: int| 0 <= i < ratios.len() && (#[trigger] ratios[i]).spec_near_full() {
                let i = choose|i: int| 0 <= i < ratios.len() && (#[trigger] ratios[i]).spec_near_full();
                assert(rest[i - 1] == ratios[i]);
            }
            if exists|i: int| 0 <= i < rest.len() && (#[trigger] rest[i]).spec_near_full() {
                let i = choose|i: int| 0 <= i < rest.len() && (#[trigger] rest[i]).spec_near_full();
                assert(ratios[i + 1] == rest[i]);
            }
        }
    }
}

proof fn lemma_gate_silent_once_notified(kind: Option<TimeBarLength>, ratios: Seq<Ratio>)
    ensures
        fire_count(kind, true, ratios) == 0,
    decreases ratios.len(),
{
    if ratios.len() > 0 {
        lemma_gate_silent_once_notified(kind, ratios.drop_first());
    }
}

/// A clock with no time bar asked for has no ratio at any moment, and no tick
/// changes it.
pub proof fn lemma_no_bar_without_flag(c: Clock, now: Moment)
    requires
        !c.timer && !c.minute && !c.day && !c.hour,
        c.custom is None,
        c.countdown is None,
    ensures
        c.spec_timebar_len() is None,
        c.spec_ratio(now) is None,
        c.spec_after_tick(now) == c,
{
}

} // verus!
