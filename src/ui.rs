use vstd::prelude::*;

use crate::clock::{gate_fires, Clock};
use crate::frame::{shown_ratio, Data, DataView};
use crate::moment::Moment;
use crate::text::{clock_text, clock_text_of, span_text, span_text_of};
use crate::timebar::{Ratio, TimeBarLength};

verus! {

/// What the time bar draws.
#[derive(Clone, Copy, Debug, PartialEq, Eq, Structural)]
pub struct TimeBar {
    pub ratio: Ratio,
    /// Drawn in the alert style: the end of the countdown was announced.
    pub alert: bool,
    /// Room left free on the right.
    pub padding: u16,
    /// The end of the countdown is to be announced with this frame.
    pub notify: bool,
}

/// The line of text under the time bar.
#[derive(Debug)]
pub struct Label {
    pub text: String,
    /// Room left free on the right.
    pub padding: u16,
}

/// The right padding of the bar and its label: the first of the two given
/// on a screen wider than 80 columns, else the second.
pub open spec fn padding_for(padding: Seq<u16>, width: u16) -> u16 {
    if width > 80 {
        padding[0]
    } else {
        padding[1]
    }
}

/// The span from `from` to `to` as humantime writes it; no time at all when
/// `to` is not later.
pub open spec fn elapsed_text_of(from: Moment, to: Moment) -> Seq<char> {
    let e = from.nanos_until(to);
    if e <= 0 {
        span_text_of(0, 0)
    } else {
        span_text_of(e / 1_000_000_000, e % 1_000_000_000)
    }
}

/// The label of a clock with a time bar, shown with the snapshot `d`.
///
/// A timer reads `<start> + <elapsed>`. The other bars read
/// `<elapsed> / <length> | <window start> -> <window end>`, where a minute,
/// hour or day window is shown from the start of the anchor's minute, and a
/// custom window or countdown from the anchor itself; a countdown that was
/// announced shows its whole length as elapsed.
pub open spec fn label_text(c: Clock, d: DataView) -> Seq<char> {
    let k = c.spec_timebar_len()->Some_0;
    let last = c.last_reset->Some_0.spec_rounded();
    let time_now = match k {
        TimeBarLength::Countup(secs) => if c.did_notify {
            span_text_of(secs as int, 0)
        } else {
            elapsed_text_of(last, d.now.spec_rounded())
        },
        TimeBarLength::Hour => elapsed_text_of(last, d.now),
        _ => elapsed_text_of(last, d.now.spec_rounded()),
    };
    let shown = if k is Custom || k is Countup {
        last
    } else {
        last.spec_start_of_minute()
    };
    if k is Timer {
        clock_text_of(d.started_at.local_secs()) + " + "@ + time_now
    } else {
        time_now + " / "@ + k.spec_text() + " | "@ + clock_text_of(shown.local_secs()) + " -> "@
            + clock_text_of(shown.local_secs() + k.spec_as_secs())
    }
}

fn elapsed_text(from: Moment, to: Moment) -> (r: String)
    requires
        from.in_span(),
        to.in_span(),
    ensures
        r@ == elapsed_text_of(from, to),
{
    let e = from.nanos_between(&to);
    if e <= 0 {
        span_text(0, 0)
    } else {
        span_text((e / 1_000_000_000) as u64, (e % 1_000_000_000) as u32)
    }
}

/// The time bar of the frame, if a bar was asked for. Checks the notification
/// gate with the ratio shown (see [`Clock::latch_notification`]); the bar is
/// drawn in the alert style once the end of the countdown was announced.
pub fn timebarw(clock: &mut Clock, data: &Data, timebarw_padding: &[u16], width: u16) -> (r: Option<
    TimeBar,
>)
    requires
        data.wf(),
        old(clock).spec_timebar_len() is Some ==> {
            &&& shown_ratio(data.view()) matches Some(q)
            &&& q.wf()
            &&& timebarw_padding@.len() >= 2
        },
    ensures
        old(clock).spec_timebar_len() is None ==> r is None && *final(clock) == *old(clock),
        old(clock).spec_timebar_len() is Some ==> {
            let q = shown_ratio(data.view())->Some_0;
            let fire = gate_fires(old(clock).spec_timebar_len(), old(clock).did_notify, q);
            &&& *final(clock) == (Clock { did_notify: old(clock).did_notify || fire, ..*old(clock) })
            &&& r == Some(
                TimeBar {
                    ratio: q,
                    alert: final(clock).did_notify,
                    padding: padding_for(timebarw_padding@, width),
                    notify: fire,
                },
            )
        },
{
    if clock.timebar_len().is_none() {
        return None;
    }
    let ratio = data.timebar_ratio().unwrap();
    let notify = clock.latch_notification(ratio);
    let padding = if width > 80 {
        timebarw_padding[0]
    } else {
        timebarw_padding[1]
    };
    Some(TimeBar { ratio, alert: clock.did_notify, padding, notify })
}

/// The label under the time bar, if a bar was asked for: see [`label_text`].
pub fn timebarw_label(clock: &Clock, data: &Data, timebarw_padding: &[u16], width: u16) -> (r:
    Option<Label>)
    requires
        clock.ready(),
        data.wf(),
        data.view().now.near_range(),
        clock.spec_timebar_len() matches Some(k) ==> {
            &&& k.spec_as_secs() >= 0
            &&& timebarw_padding@.len() >= 2
        },
    ensures
        r is Some <==> clock.spec_timebar_len() is Some,
        r matches Some(l) ==> {
            &&& l.text@ == label_text(*clock, data.view())
            &&& l.padding == padding_for(timebarw_padding@, width)
        },
{
    let len = match clock.timebar_len() {
        Some(len) => len,
        None => return None,
    };
    let last = clock.last_reset.unwrap().rounded();
    let now = data.now();
    let time_now = match len {
        TimeBarLength::Countup(secs) => {
            if clock.did_notify {
                span_text(secs as u64, 0)
            } else {
                elapsed_text(last, now.rounded())
            }
        },
        TimeBarLength::Hour => elapsed_text(last, now),
        _ => elapsed_text(last, now.rounded()),
    };
    let shown = match len {
        TimeBarLength::Custom(_) | TimeBarLength::Countup(_) => last,
        _ => last.start_of_minute(),
    };
    proof {
        reveal_strlit(" + ");
        reveal_strlit(" / ");
        reveal_strlit(" | ");
        reveal_strlit(" -> ");
    }
    let mut text = String::new();
    if let TimeBarLength::Timer = len {
        text.append(clock_text(data.started_at().local()).as_str());
        text.append(" + ");
        text.append(time_now.as_str());
    } else {
        let end = (shown.local() as i128 + len.as_secs() as i128).checked_rem_euclid(86400).unwrap();
        text.append(time_now.as_str());
        text.append(" / ");
        text.append(len.text().as_str());
        text.append(" | ");
        text.append(clock_text(shown.local()).as_str());
        text.append(" -> ");
        text.append(clock_text(end as i64).as_str());
    }
    assert(text@ =~= label_text(*clock, data.view()));
    let padding = if width > 80 {
        timebarw_padding[0]
    } else {
        timebarw_padding[1]
    };
    Some(Label { text, padding })
}

} // verus!
