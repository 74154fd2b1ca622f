use pomodoro::countdown::{clock_display, Countdown};
use pomodoro::menu::Preset;
use pomodoro::session::RunningSession;
use pomodoro::text::{decimal, padded_decimal};

#[test]
fn decimal_text() {
    assert_eq!(decimal(0), "0");
    assert_eq!(decimal(7), "7");
    assert_eq!(decimal(25), "25");
    assert_eq!(decimal(4294967295), "4294967295");
}

#[test]
fn padded_text() {
    assert_eq!(padded_decimal(5, 2), "05");
    assert_eq!(padded_decimal(0, 2), "00");
    assert_eq!(padded_decimal(12, 4), "0012");
    assert_eq!(padded_decimal(123, 2), "123");
}

#[test]
fn clock_shows_minutes_and_seconds() {
    assert_eq!(clock_display(1500), "25:00");
    assert_eq!(clock_display(1499), "24:59");
    assert_eq!(clock_display(61), "01:01");
    assert_eq!(clock_display(1), "00:01");
    assert_eq!(clock_display(6000), "100:00");
}

#[test]
fn preset_lengths() {
    assert_eq!(Preset::Work.minutes(), 25);
    assert_eq!(Preset::ShortBreak.minutes(), 5);
    assert_eq!(Preset::LongBreak.minutes(), 15);
    assert_eq!(Preset::Test.minutes(), 1);
    assert_eq!(Preset::Work.label(), "Work");
    assert_eq!(Preset::ShortBreak.label(), "Short Break");
    assert_eq!(Preset::LongBreak.label(), "Long Break");
    assert_eq!(Preset::Test.label(), "Test");
}

#[test]
fn every_preset_counts_down_one_second_per_tick() {
    for p in [Preset::Work, Preset::ShortBreak, Preset::LongBreak, Preset::Test] {
        let total = p.minutes() * 60;
        let mut c = Countdown::new(p.minutes());
        let mut shown = Vec::new();
        while let Some(t) = c.tick() {
            shown.push(t);
        }
        assert_eq!(shown.len() as u32, total);
        assert_eq!(shown[0], format!("{:02}:00", p.minutes()));
        assert_eq!(shown[shown.len() - 1], "00:01");
        for (k, t) in shown.iter().enumerate() {
            let left = total - k as u32;
            assert_eq!(*t, format!("{:02}:{:02}", left / 60, left % 60));
        }
        assert!(c.is_done());
        assert!(c.tick().is_none());
    }
}

#[test]
fn zero_minute_countdown_shows_nothing() {
    let mut c = Countdown::new(0);
    assert!(c.is_done());
    assert!(c.tick().is_none());
}

#[test]
fn running_session_starts_with_full_countdown() {
    let mut s = RunningSession::start(Preset::ShortBreak);
    assert_eq!(s.countdown.remaining, 300);
    assert!(s.start.month >= 1 && s.start.month <= 12);
    assert!(s.start.hour <= 23);
    assert_eq!(s.tick().as_deref(), Some("05:00"));
    assert_eq!(s.countdown.remaining, 299);
}
