use vstd::prelude::*;

use crate::moment::Moment;
use crate::timebar::{Ratio, TimeBarLength};

verus! {

/// One snapshot of what the clock shows.
pub ghost struct FrameView {
    pub date: Seq<char>,
    pub time: Seq<char>,
    pub ratio: Option<Ratio>,
}

/// The two snapshots of a `Data`: the one last written and the one before.
pub ghost struct DataView {
    pub current: FrameView,
    pub previous: FrameView,
    /// The moment written with the current snapshot.
    pub now: Moment,
    pub timebar_type: Option<TimeBarLength>,
    pub started_at: Moment,
}

/// Whether the displayed date or time differs between two snapshots; the
/// ratio and the moment do not count.
pub open spec fn texts_differ(a: FrameView, b: FrameView) -> bool {
    a.date != b.date || a.time != b.time
}

/// `d` after a snapshot `f` taken at `now` was written.
pub open spec fn after_update(d: DataView, now: Moment, f: FrameView) -> DataView {
    DataView { current: f, previous: d.current, now, ..d }
}

/// `d` after the snapshot `f` was written.
pub open spec fn ui_after_update(d: UiDataView, f: FrameView) -> UiDataView {
    UiDataView { current: f, previous: d.current }
}

/// Two updates in a row report a change exactly when their dates or times
/// differ: equal texts with different ratios or moments report none.
pub proof fn lemma_change_follows_texts(
    d: DataView,
    now1: Moment,
    f1: FrameView,
    now2: Moment,
    f2: FrameView,
)
    ensures
        ({
            let e = after_update(after_update(d, now1, f1), now2, f2);
            texts_differ(e.current, e.previous) == (f1.date != f2.date || f1.time != f2.time)
        }),
{
}

/// The same of `UiData`: two updates in a row report a change exactly when
/// their dates or times differ.
pub proof fn lemma_ui_change_follows_texts(d: UiDataView, f1: FrameView, f2: FrameView)
    ensures
        ({
            let e = ui_after_update(ui_after_update(d, f1), f2);
            texts_differ(e.current, e.previous) == (f1.date != f2.date || f1.time != f2.time)
        }),
{
}

/// The ratio to draw: always empty for a timer, else the one last written.
pub open spec fn shown_ratio(d: DataView) -> Option<Ratio> {
    if d.timebar_type == Some(TimeBarLength::Timer) {
        Some(Ratio { num: 0, den: 1 })
    } else {
        d.current.ratio
    }
}

/// What the clock shows, kept twice so that a change of the displayed second
/// can be told from a tick that changed nothing visible.
#[derive(Debug)]
pub struct Data {
    now: [Moment; 2],
    fdate: [String; 2],
    ftime: [String; 2],
    timebar_ratio: [Option<Ratio>; 2],
    timebar_type: Option<TimeBarLength>,
    started_at: Moment,
    idx: usize,
}

impl Data {
    pub closed spec fn wf(self) -> bool {
        self.idx < 2 && self.started_at.near_range()
    }

    pub closed spec fn slot(self, i: int) -> FrameView {
        FrameView {
            date: self.fdate[i]@,
            time: self.ftime[i]@,
            ratio: self.timebar_ratio[i],
        }
    }

    pub closed spec fn view(self) -> DataView {
        DataView {
            current: self.slot(self.idx as int),
            previous: self.slot(1 - self.idx),
            now: self.now[self.idx as int],
            timebar_type: self.timebar_type,
            started_at: self.started_at,
        }
    }

    /// Empty snapshots for a clock that started at `started_at`, which is
    /// kept to the nearest whole second.
    pub fn new(timebar_type: Option<TimeBarLength>, started_at: Moment) -> (r: Data)
        requires
            started_at.wf(),
        ensures
            r.wf(),
            r.view().timebar_type == timebar_type,
            r.view().started_at == started_at.spec_rounded(),
            r.view().current == r.view().previous,
            r.view().now == (Moment { secs: 0, nanos: 0, offset: 0 }),
            r.view().current == (FrameView {
                date: Seq::empty(),
                time: Seq::empty(),
                ratio: None,
            }),
    {
        let epoch = Moment { secs: 0, nanos: 0, offset: 0 };
        let r = Data {
            now: [epoch, epoch],
            fdate: [String::new(), String::new()],
            ftime: [String::new(), String::new()],
            timebar_ratio: [None, None],
            timebar_type,
            started_at: started_at.rounded(),
            idx: 0,
        };
        assert(r.view().current.date =~= Seq::empty());
        r
    }

    /// Writes a new snapshot; the one written before becomes the previous.
    pub fn update(&mut self, now: Moment, fdate: String, ftime: String, timebar_ratio: Option<Ratio>)
        requires
            old(self).wf(),
        ensures
            final(self).wf(),
            final(self).view() == after_update(
                old(self).view(),
                now,
                FrameView { date: fdate@, time: ftime@, ratio: timebar_ratio },
            ),
    {
        let prev = self.idx;
        let i = prev ^ 1;
        assert(i == 1 - prev) by (bit_vector)
            requires
                i == prev ^ 1,
                prev < 2,
        ;
        self.idx = i;
        self.now[i] = now;
        self.fdate[i] = fdate;
        self.ftime[i] = ftime;
        self.timebar_ratio[i] = timebar_ratio;
    }

    /// Did the displayed date or time change with the last update?
    pub fn changed(&self) -> (r: bool)
        requires
            self.wf(),
        ensures
            r == texts_differ(self.view().current, self.view().previous),
    {
        self.fdate[0] != self.fdate[1] || self.ftime[0] != self.ftime[1]
    }

    pub fn fdate(&self) -> (r: &str)
        requires
            self.wf(),
        ensures
            r@ == self.view().current.date,
    {
        self.fdate[self.idx].as_str()
    }

    pub fn ftime(&self) -> (r: &str)
        requires
            self.wf(),
        ensures
            r@ == self.view().current.time,
    {
        self.ftime[self.idx].as_str()
    }

    pub fn now(&self) -> (r: Moment)
        requires
            self.wf(),
        ensures
            r == self.view().now,
    {
        self.now[self.idx]
    }

    pub fn started_at(&self) -> (r: Moment)
        requires
            self.wf(),
        ensures
            r == self.view().started_at,
            r.near_range(),
    {
        self.started_at
    }

    /// `d` after a snapshot `f` taken at `now` was written.
pub open spec fn after_update(d: DataView, now: Moment, f: FrameView) -> DataView {
    DataView { current: f, previous: d.current, now, ..d }
}

/// `d` after the snapshot `f` was written.
pub open spec fn ui_after_update(d: UiDataView, f: FrameView) -> UiDataView {
    UiDataView { current: f, previous: d.current }
}

/// Two updates in a row report a change exactly when their dates or times
/// differ: equal texts with different ratios or moments report none.
pub proof fn lemma_change_follows_texts(
    d: DataView,
    now1: Moment,
    f1: FrameView,
    now2: Moment,
    f2: FrameView,
)
    ensures
        ({
            let e = after_update(after_update(d, now1, f1), now2, f2);
            texts_differ(e.current, e.previous) == (f1.date != f2.date || f1.time != f2.time)
        }),
{
}

/// The same of `UiData`: two updates in a row report a change exactly when
/// their dates or times differ.
pub proof fn lemma_ui_change_follows_texts(d: UiDataView, f1: FrameView, f2: FrameView)
    ensures
        ({
            let e = ui_after_update(ui_after_update(d, f1), f2);
            texts_differ(e.current, e.previous) == (f1.date != f2.date || f1.time != f2.time)
        }),
{
}

/// The ratio to draw: always empty for a timer, else the one last written.
    pub fn timebar_ratio(&self) -> (r: Option<Ratio>)
        requires
            self.wf(),
        ensures
            r == shown_ratio(self.view()),
    {
        if self.timebar_type == Some(TimeBarLength::Timer) {
            return Some(Ratio::zero());
        }
        self.timebar_ratio[self.idx]
    }
}

/// The two snapshots of a `UiData`.
pub ghost struct UiDataView {
    pub current: FrameView,
    pub previous: FrameView,
}

/// The displayed texts and ratio, kept twice so that a change of the
/// displayed second can be told from a tick that changed nothing visible.
#[derive(Debug)]
pub struct UiData {
    fdate: [String; 2],
    ftime: [String; 2],
    timebar_ratio: [Option<Ratio>; 2],
    data_idx: usize,
}

impl Default for UiData {
    fn default() -> (r: UiData)
        ensures
            r.wf(),
            r.view().current == r.view().previous,
            r.view().current == (FrameView { date: Seq::empty(), time: Seq::empty(), ratio: None }),
    {
        let r = UiData {
            fdate: [String::new(), String::new()],
            ftime: [String::new(), String::new()],
            timebar_ratio: [None, None],
            data_idx: 0,
        };
        assert(r.view().current.date =~= Seq::empty());
        r
    }
}

impl UiData {
    pub closed spec fn wf(self) -> bool {
        self.data_idx < 2
    }

    pub closed spec fn slot(self, i: int) -> FrameView {
        FrameView {
            date: self.fdate[i]@,
            time: self.ftime[i]@,
            ratio: self.timebar_ratio[i],
        }
    }

    pub closed spec fn view(self) -> UiDataView {
        UiDataView {
            current: self.slot(self.data_idx as int),
            previous: self.slot(1 - self.data_idx),
        }
    }

    /// Writes a new snapshot; the one written before becomes the previous.
    pub fn update(&mut self, fdate: String, ftime: String, timebar_ratio: Option<Ratio>)
        requires
            old(self).wf(),
        ensures
            final(self).wf(),
            final(self).view() == ui_after_update(
                old(self).view(),
                FrameView { date: fdate@, time: ftime@, ratio: timebar_ratio },
            ),
    {
        let prev = self.data_idx;
        let i = prev ^ 1;
        assert(i == 1 - prev) by (bit_vector)
            requires
                i == prev ^ 1,
                prev < 2,
        ;
        self.data_idx = i;
        self.fdate[i] = fdate;
        self.ftime[i] = ftime;
        self.timebar_ratio[i] = timebar_ratio;
    }

    /// Did the displayed date or time change with the last update?
    pub fn changed(&self) -> (r: bool)
        requires
            self.wf(),
        ensures
            r == texts_differ(self.view().current, self.view().previous),
    {
        self.fdate[0] != self.fdate[1] || self.ftime[0] != self.ftime[1]
    }

    pub fn fdate(&self) -> (r: &str)
        requires
            self.wf(),
        ensures
            r@ == self.view().current.date,
    {
        self.fdate[self.data_idx].as_str()
    }

    pub fn ftime(&self) -> (r: &str)
        requires
            self.wf(),
        ensures
            r@ == self.view().current.time,
    {
        self.ftime[self.data_idx].as_str()
    }

    pub fn timebar_ratio(&self) -> (r: Option<Ratio>)
        requires
            self.wf(),
        ensures
            r == self.view().current.ratio,
    {
        self.timebar_ratio[self.data_idx]
    }
}

} // verus!
