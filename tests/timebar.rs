use crock::{is_quit_key, timebarw, timebarw_label, Clock, ClockError, Data, Key, Moment, Ratio, TimeBarLength, UiData};

/// 2023-11-14 22:14:00 UTC, the start of a minute.
const MINUTE_START: i64 = 1_700_000_040;

fn at(secs: i64, nanos: u32, offset: i32) -> Moment {
    Moment { secs, nanos, offset }
}

fn clock_with(kind: &str, secs: Option<i64>) -> Clock {
    Clock {
        timer: kind == "timer",
        minute: kind == "minute",
        day: kind == "day",
        hour: kind == "hour",
        custom: if kind == "custom" { secs } else { None },
        countdown: if kind == "countdown" { secs } else { None },
        last_reset: None,
        did_notify: false,
    }
}

fn as_f64(r: Ratio) -> f64 {
    r.num as f64 / r.den as f64
}

#[test]
fn minute_ratio_marks() {
    let mut c = clock_with("minute", None);
    let anchor = at(MINUTE_START, 0, 0);
    c.last_reset = Some(anchor);
    assert_eq!(c.timebar_ratio(anchor.plus_secs(30)).map(as_f64), Some(0.5));
    assert_eq!(c.timebar_ratio(anchor.plus_secs(59)).map(as_f64), Some(0.9833333333333333));
    assert_eq!(c.timebar_ratio(anchor).map(as_f64), Some(0.0));
    assert_eq!(c.timebar_ratio(anchor.plus_secs(60)).map(as_f64), Some(1.0));
    assert_eq!(c.timebar_ratio(anchor.plus_secs(61)), Some(Ratio { num: 60, den: 60 }));
}

#[test]
fn ratio_stays_within_bounds() {
    let kinds = [
        ("minute", None),
        ("hour", None),
        ("day", None),
        ("timer", None),
        ("custom", Some(90)),
        ("countdown", Some(10)),
        ("custom", Some(0)),
        ("countdown", Some(-5)),
    ];
    for (kind, secs) in kinds {
        let mut c = clock_with(kind, secs);
        c.setup(at(MINUTE_START + 17, 250_000_000, 0)).unwrap();
        for step in [-100_000i64, -1, 0, 1, 5, 59, 60, 3_599, 86_400, 10_000_000] {
            let r = c.timebar_ratio(at(MINUTE_START + 17 + step, 0, 0)).unwrap();
            assert!(r.den > 0 && r.num <= r.den, "{kind} at {step}: {r:?}");
            let v = as_f64(r);
            assert!((0.0..=1.0).contains(&v));
        }
    }
}

#[test]
fn window_without_length_is_full_once_time_passed() {
    let mut c = clock_with("custom", Some(0));
    c.last_reset = Some(at(MINUTE_START, 0, 0));
    assert_eq!(c.timebar_ratio(at(MINUTE_START, 0, 0)), Some(Ratio { num: 0, den: 1 }));
    assert_eq!(c.timebar_ratio(at(MINUTE_START + 1, 0, 0)), Some(Ratio { num: 1, den: 1 }));
}

#[test]
fn countup_stays_full() {
    let mut c = clock_with("countdown", Some(10));
    let start = at(MINUTE_START + 5, 400_000_000, 0);
    c.setup(start).unwrap();
    assert_eq!(c.last_reset, Some(start));
    assert_eq!(c.timebar_ratio(at(MINUTE_START + 15, 0, 0)), Some(Ratio { num: 9, den: 10 }));
    assert_eq!(c.timebar_ratio(at(MINUTE_START + 16, 0, 0)), Some(Ratio { num: 10, den: 10 }));
    for later in [16, 17, 100, 3_600, 86_400 * 30] {
        let now = at(MINUTE_START + later, 0, 0);
        c.on_tick(now);
        assert_eq!(c.last_reset, Some(start));
        assert_eq!(c.timebar_ratio(now), Some(Ratio { num: 10, den: 10 }));
    }
}

#[test]
fn minute_reset_fires_once_per_boundary() {
    let mut c = clock_with("minute", None);
    c.setup(at(MINUTE_START + 30, 123, 0)).unwrap();
    assert_eq!(c.last_reset, Some(at(MINUTE_START, 0, 0)));
    let boundary = MINUTE_START + 60;
    let mut resets = 0;
    let mut last = c.last_reset;
    // ten ticks a second through the last second of the minute, the
    // zero second and the one after it
    for tick in 0..30u32 {
        let secs = boundary - 1 + (tick / 10) as i64;
        let nanos = (tick % 10) * 100_000_000;
        c.maybe_reset_since_zero(at(secs, nanos, 0));
        if c.last_reset != last {
            resets += 1;
            last = c.last_reset;
        }
    }
    assert_eq!(resets, 1);
    assert_eq!(c.last_reset, Some(at(boundary, 0, 0)));
}

#[test]
fn hour_and_day_bars_start_over_at_their_boundaries() {
    let mut h = clock_with("hour", None);
    // local time 10:20:30 in UTC+2
    let local_start = 1_699_920_000 + 10 * 3600 + 20 * 60 + 30;
    h.setup(at(local_start - 7200, 0, 7200)).unwrap();
    assert_eq!(h.last_reset, Some(at(local_start - 7200 - 20 * 60 - 30, 0, 7200)));
    let next_hour = local_start - 7200 - 20 * 60 - 30 + 3600;
    h.on_tick(at(next_hour - 1, 0, 7200));
    assert_eq!(h.last_reset, Some(at(local_start - 7200 - 20 * 60 - 30, 0, 7200)));
    h.on_tick(at(next_hour + 5, 700, 7200));
    assert_eq!(h.last_reset, Some(at(next_hour + 5, 0, 7200)));
    h.on_tick(at(next_hour + 40, 0, 7200));
    assert_eq!(h.last_reset, Some(at(next_hour + 5, 0, 7200)));

    let mut d = clock_with("day", None);
    d.setup(at(local_start - 7200, 0, 7200)).unwrap();
    let midnight = 1_699_920_000 - 7200;
    assert_eq!(d.last_reset, Some(at(midnight, 0, 7200)));
    d.on_tick(at(midnight + 86_400 + 1, 0, 7200));
    assert_eq!(d.last_reset, Some(at(midnight + 86_400 + 1, 0, 7200)));
}

#[test]
fn custom_window_starts_over_when_full() {
    let mut c = clock_with("custom", Some(90));
    c.setup(at(MINUTE_START, 300_000_000, 0)).unwrap();
    c.on_tick(at(MINUTE_START + 89, 900_000_000, 0));
    assert_eq!(c.last_reset, Some(at(MINUTE_START, 300_000_000, 0)));
    c.on_tick(at(MINUTE_START + 90, 600_000_000, 0));
    assert_eq!(c.last_reset, Some(at(MINUTE_START + 91, 0, 0)));
}

#[test]
fn setup_rejects_invalid_moment() {
    let mut c = clock_with("minute", None);
    assert_eq!(c.setup(at(MINUTE_START, 1_500_000_000, 0)), Err(ClockError::InvalidTime));
    assert_eq!(c.last_reset, None);
    assert_eq!(c.setup(at(i64::MAX, 0, 0)), Err(ClockError::InvalidTime));
    assert_eq!(c.setup(at(MINUTE_START, 0, 90_000)), Err(ClockError::InvalidTime));
    assert_eq!(c.setup(at(MINUTE_START, 0, 0)), Ok(()));
}

#[test]
fn frame_changes_only_with_texts() {
    let mut data = UiData::default();
    data.update("date".to_owned(), "time".to_owned(), Some(Ratio { num: 1, den: 10 }));
    assert_eq!(data.timebar_ratio(), Some(Ratio { num: 1, den: 10 }));
    assert!(data.changed());
    data.update("date".to_owned(), "time".to_owned(), Some(Ratio { num: 2, den: 10 }));
    assert_eq!(data.timebar_ratio(), Some(Ratio { num: 2, den: 10 }));
    assert!(!data.changed());
    data.update("date".to_owned(), "time".to_owned(), Some(Ratio { num: 3, den: 10 }));
    assert_eq!(data.timebar_ratio(), Some(Ratio { num: 3, den: 10 }));
    assert!(!data.changed());
    data.update("date".to_owned(), "time2".to_owned(), Some(Ratio { num: 3, den: 10 }));
    assert!(data.changed());
    data.update("date2".to_owned(), "time2".to_owned(), None);
    assert!(data.changed());
    assert_eq!(data.fdate(), "date2");
    assert_eq!(data.ftime(), "time2");
}

#[test]
fn data_changes_only_with_texts() {
    let start = at(MINUTE_START, 0, 0);
    let mut data = Data::new(Some(TimeBarLength::Minute), start);
    data.update(start, "d".to_owned(), "t".to_owned(), Some(Ratio { num: 1, den: 60 }));
    data.update(start.plus_secs(1), "d".to_owned(), "t".to_owned(), Some(Ratio { num: 2, den: 60 }));
    assert!(!data.changed());
    assert_eq!(data.now(), start.plus_secs(1));
    data.update(start.plus_secs(1), "d".to_owned(), "u".to_owned(), Some(Ratio { num: 2, den: 60 }));
    assert!(data.changed());
}

#[test]
fn refresh_shows_date_and_time_of_reading() {
    let mut c = clock_with("minute", None);
    let reading = at(MINUTE_START + 29, 600_000_000, 3600);
    c.setup(reading).unwrap();
    let mut data = Data::new(c.timebar_len(), reading);
    assert!(c.refresh(&mut data, reading));
    // 22:14:29.6 UTC is 23:14:30 in UTC+1 to the nearest second
    assert_eq!(data.fdate(), "2023-11-14");
    assert_eq!(data.ftime(), "23:14:30");
    assert_eq!(data.now(), at(MINUTE_START + 31, 0, 3600));
    assert_eq!(data.timebar_ratio(), Some(Ratio { num: 31, den: 60 }));
    assert!(!c.refresh(&mut data, at(MINUTE_START + 30, 100_000_000, 3600)));
    assert!(c.refresh(&mut data, at(MINUTE_START + 31, 0, 3600)));
    assert_eq!(data.ftime(), "23:14:31");
    let late = at(MINUTE_START + 2 * 3600, 0, 3600);
    assert!(c.refresh(&mut data, late));
    assert_eq!(data.fdate(), "2023-11-15");
    assert_eq!(data.ftime(), "01:14:00");
}

#[test]
fn notification_gate_fires_once() {
    let mut c = clock_with("countdown", Some(10));
    c.setup(at(MINUTE_START, 0, 0)).unwrap();
    assert!(!c.latch_notification(Ratio { num: 9, den: 10 }));
    assert!(!c.did_notify);
    assert!(c.latch_notification(Ratio { num: 10, den: 10 }));
    assert!(c.did_notify);
    for _ in 0..50 {
        assert!(!c.latch_notification(Ratio { num: 10, den: 10 }));
    }
    assert!(c.did_notify);

    let mut m = clock_with("minute", None);
    assert!(!m.latch_notification(Ratio { num: 60, den: 60 }));
    assert!(!m.did_notify);
}

#[test]
fn near_full_is_within_a_millionth() {
    assert!(Ratio { num: 1_999_999, den: 2_000_000 }.near_full());
    assert!(!Ratio { num: 999_999, den: 1_000_000 }.near_full());
    assert!(Ratio { num: 5, den: 5 }.near_full());
    assert!(!Ratio { num: 0, den: 1 }.near_full());
}

#[test]
fn timebar_announces_end_of_countdown_once() {
    let mut c = clock_with("countdown", Some(2));
    let start = at(MINUTE_START, 0, 0);
    c.setup(start).unwrap();
    let mut data = Data::new(c.timebar_len(), start);
    c.refresh(&mut data, start);
    let bar = timebarw(&mut c, &data, &[30, 10], 120).unwrap();
    assert_eq!(bar.ratio, Ratio { num: 1, den: 2 });
    assert!(!bar.notify && !bar.alert);
    assert_eq!(bar.padding, 30);
    c.refresh(&mut data, start.plus_secs(1));
    let bar = timebarw(&mut c, &data, &[30, 10], 60).unwrap();
    assert_eq!(bar.ratio, Ratio { num: 2, den: 2 });
    assert!(bar.notify && bar.alert);
    assert_eq!(bar.padding, 10);
    for s in 2..20 {
        c.refresh(&mut data, start.plus_secs(s));
        let bar = timebarw(&mut c, &data, &[30, 10], 60).unwrap();
        assert!(!bar.notify && bar.alert);
        assert_eq!(bar.ratio, Ratio { num: 2, den: 2 });
    }
}

#[test]
fn no_flag_means_no_bar() {
    let mut c = clock_with("none", None);
    assert_eq!(c.timebar_len(), None);
    c.setup(at(MINUTE_START, 0, 0)).unwrap();
    assert_eq!(c.timebar_ratio(at(MINUTE_START + 30, 0, 0)), None);
    let mut data = Data::new(None, at(MINUTE_START, 0, 0));
    c.refresh(&mut data, at(MINUTE_START + 1, 0, 0));
    assert_eq!(data.timebar_ratio(), None);
    assert!(timebarw(&mut c, &data, &[1, 2], 100).is_none());
    assert!(timebarw_label(&c, &data, &[1, 2], 100).is_none());
}

#[test]
fn first_flag_wins() {
    let mut c = clock_with("none", None);
    c.countdown = Some(5);
    c.custom = Some(7);
    assert_eq!(c.timebar_len(), Some(TimeBarLength::Countup(5)));
    c.timer = true;
    assert_eq!(c.timebar_len(), Some(TimeBarLength::Timer));
    c.hour = true;
    assert_eq!(c.timebar_len(), Some(TimeBarLength::Hour));
    c.day = true;
    assert_eq!(c.timebar_len(), Some(TimeBarLength::Day));
    c.minute = true;
    assert_eq!(c.timebar_len(), Some(TimeBarLength::Minute));
}

#[test]
fn lengths_in_seconds_and_text() {
    assert_eq!(TimeBarLength::Minute.as_secs(), 60);
    assert_eq!(TimeBarLength::Hour.as_secs(), 3600);
    assert_eq!(TimeBarLength::Day.as_secs(), 86_400);
    assert_eq!(TimeBarLength::Timer.as_secs(), 1);
    assert_eq!(TimeBarLength::Custom(42).as_secs(), 42);
    assert_eq!(TimeBarLength::Countup(7).as_secs(), 7);
    assert_eq!(TimeBarLength::default(), TimeBarLength::Minute);
    assert_eq!(TimeBarLength::Minute.text(), "1m");
    assert_eq!(TimeBarLength::Hour.text(), "1h");
    assert_eq!(TimeBarLength::Day.text(), "1day");
    assert_eq!(TimeBarLength::Custom(90).text(), "1m 30s");
    assert_eq!(TimeBarLength::Countup(0).text(), "0s");
    assert_eq!(TimeBarLength::Timer.text(), "");
}

#[test]
fn minute_label() {
    let mut c = clock_with("minute", None);
    let start = at(MINUTE_START + 12, 0, 3600);
    c.setup(start).unwrap();
    let mut data = Data::new(c.timebar_len(), start);
    c.refresh(&mut data, at(MINUTE_START + 29, 200_000_000, 3600));
    let label = timebarw_label(&c, &data, &[4, 2], 81).unwrap();
    assert_eq!(label.text, "30s / 1m | 23:14:00 -> 23:15:00");
    assert_eq!(label.padding, 4);
}

#[test]
fn custom_and_countdown_labels() {
    let start = at(MINUTE_START + 12, 0, 0);
    let mut c = clock_with("custom", Some(90));
    c.setup(start).unwrap();
    let mut data = Data::new(c.timebar_len(), start);
    c.refresh(&mut data, start.plus_secs(64));
    let label = timebarw_label(&c, &data, &[4, 2], 80).unwrap();
    assert_eq!(label.text, "1m 5s / 1m 30s | 22:14:12 -> 22:15:42");
    assert_eq!(label.padding, 2);

    let mut u = clock_with("countdown", Some(3600));
    u.setup(start).unwrap();
    u.refresh(&mut data, start.plus_secs(9));
    let label = timebarw_label(&u, &data, &[4, 2], 80).unwrap();
    assert_eq!(label.text, "10s / 1h | 22:14:12 -> 23:14:12");
    u.did_notify = true;
    let label = timebarw_label(&u, &data, &[4, 2], 80).unwrap();
    assert_eq!(label.text, "1h / 1h | 22:14:12 -> 23:14:12");
}

#[test]
fn timer_label() {
    let start = at(MINUTE_START + 12, 0, 0);
    let mut c = clock_with("timer", None);
    c.setup(start).unwrap();
    let mut data = Data::new(c.timebar_len(), start);
    c.refresh(&mut data, start.plus_secs(3 * 3600 + 4));
    assert_eq!(data.timebar_ratio(), Some(Ratio { num: 0, den: 1 }));
    let label = timebarw_label(&c, &data, &[4, 2], 80).unwrap();
    assert_eq!(label.text, "22:14:12 + 3h 5s");
}

#[test]
fn quit_keys() {
    assert!(is_quit_key(Key::Char('q'), false));
    assert!(is_quit_key(Key::Esc, false));
    assert!(is_quit_key(Key::Char('c'), true));
    assert!(!is_quit_key(Key::Char('c'), false));
    assert!(!is_quit_key(Key::Char('x'), true));
    assert!(!is_quit_key(Key::Other, true));
}
