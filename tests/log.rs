use pomodoro::clock::{date_display, time_display, Timestamp};
use pomodoro::menu::{Mode, Preset};
use pomodoro::session::{log_line, log_view, RunningSession, SessionRecord};

fn at(hour: u32, minute: u32, second: u32) -> Timestamp {
    Timestamp { year: 2024, month: 3, day: 5, hour, minute, second }
}

fn record(p: Preset, start: Timestamp, end: Timestamp) -> SessionRecord {
    let running = RunningSession { session_type: p, start, countdown: pomodoro::countdown::Countdown::new(0) };
    running.finish_at(end)
}

#[test]
fn date_and_time_text() {
    let t = Timestamp { year: 2024, month: 3, day: 5, hour: 9, minute: 5, second: 7 };
    assert_eq!(date_display(&t), "2024-03-05");
    assert_eq!(time_display(&t), "09:05:07");
    let early = Timestamp { year: 12, ..t };
    assert_eq!(date_display(&early), "0012-03-05");
    let before = Timestamp { year: -5, ..t };
    assert_eq!(date_display(&before), "-0005-03-05");
    let late = Timestamp { year: 10000, ..t };
    assert_eq!(date_display(&late), "+10000-03-05");
}

#[test]
fn line_without_note() {
    let line = log_line("Work", 25, &at(10, 0, 0), &at(10, 25, 0), "");
    assert_eq!(line, "2024-03-05 | Work | 25 minutes | Started: 10:00:00 | Ended: 10:25:00\n");
    assert!(!line.contains("Note:"));
}

#[test]
fn line_with_note() {
    let line = log_line("Short Break", 5, &at(10, 25, 0), &at(10, 30, 1), "tea");
    assert_eq!(
        line,
        "2024-03-05 | Short Break | 5 minutes | Started: 10:25:00 | Ended: 10:30:01 | Note: tea\n"
    );
    assert_eq!(line.matches("Note:").count(), 1);
}

#[test]
fn typed_note_is_trimmed() {
    let mut r = record(Preset::LongBreak, at(8, 0, 0), at(8, 15, 0));
    assert_eq!(r.note, "");
    assert_eq!(r.duration_minutes, 15);
    r.set_note("  read a chapter \n");
    assert_eq!(r.note, "read a chapter");
    assert_eq!(
        r.log_line(),
        "2024-03-05 | Long Break | 15 minutes | Started: 08:00:00 | Ended: 08:15:00 | Note: read a chapter\n"
    );
    r.set_note("   \n");
    assert_eq!(r.note, "");
    assert!(!r.log_line().contains("Note:"));
}

#[test]
fn view_without_log_shows_placeholder() {
    assert_eq!(log_view(None), "No sessions logged yet.\n");
    assert_eq!(log_view(Some("")), "No sessions logged yet.\n");
}

#[test]
fn view_shows_log_verbatim() {
    let text = "2024-03-05 | Test | 1 minutes | Started: 10:00:00 | Ended: 10:01:00\n";
    assert_eq!(log_view(Some(text)), text);
}

#[test]
fn appended_sessions_give_one_line_each_in_order() {
    let presets = [Preset::Work, Preset::ShortBreak, Preset::Work, Preset::LongBreak];
    let mut log = String::new();
    let mut lines = Vec::new();
    for (k, p) in presets.iter().enumerate() {
        let mut r = record(*p, at(9, k as u32, 0), at(10, k as u32, 0));
        r.set_note(&format!("session {}\n", k));
        let line = r.log_line();
        log.push_str(&line);
        lines.push(line);
    }
    let got: Vec<&str> = log.lines().collect();
    assert_eq!(got.len(), presets.len());
    for (k, l) in got.iter().enumerate() {
        assert_eq!(format!("{}\n", l), lines[k]);
        assert!(l.ends_with(&format!("Note: session {}", k)));
    }
}

#[test]
fn test_timer_scenario() {
    let mode = Mode::MenuPrompt.next("4\n");
    assert_eq!(mode, Mode::RunningTimer(Preset::Test));
    let mut s = RunningSession {
        session_type: Preset::Test,
        start: at(12, 0, 0),
        countdown: pomodoro::countdown::Countdown::new(Preset::Test.minutes()),
    };
    let mut ticks = 0;
    while s.tick().is_some() {
        ticks += 1;
    }
    assert_eq!(ticks, 60);
    let mut r = s.finish_at(at(12, 1, 0));
    r.set_note("debug\n");
    let line = r.log_line();
    assert!(line.ends_with("Note: debug\n"));
    assert_eq!(line, "2024-03-05 | Test | 1 minutes | Started: 12:00:00 | Ended: 12:01:00 | Note: debug\n");
    assert_eq!(mode.next("\n"), Mode::MenuPrompt);
    assert_eq!(Mode::MenuPrompt.next("5\n"), Mode::ViewingLog);
    assert_eq!(log_view(Some(&line)), line);
}
