use pomodoro::menu::{parse_choice, Choice, Mode, Preset};

#[test]
fn digits_name_choices() {
    assert_eq!(parse_choice("1"), Choice::Start(Preset::Work));
    assert_eq!(parse_choice("2\n"), Choice::Start(Preset::ShortBreak));
    assert_eq!(parse_choice(" 3 "), Choice::Start(Preset::LongBreak));
    assert_eq!(parse_choice("4\r\n"), Choice::Start(Preset::Test));
    assert_eq!(parse_choice("5"), Choice::ViewLog);
    assert_eq!(parse_choice("6"), Choice::Exit);
}

#[test]
fn other_lines_are_invalid() {
    assert_eq!(parse_choice("9"), Choice::Invalid);
    assert_eq!(parse_choice("abc"), Choice::Invalid);
    assert_eq!(parse_choice(""), Choice::Invalid);
    assert_eq!(parse_choice("12"), Choice::Invalid);
    assert_eq!(parse_choice("0"), Choice::Invalid);
}

#[test]
fn invalid_input_stays_at_menu() {
    assert_eq!(Mode::MenuPrompt.next("9\n"), Mode::MenuPrompt);
    assert_eq!(Mode::MenuPrompt.next("abc\n"), Mode::MenuPrompt);
}

#[test]
fn menu_transitions() {
    assert_eq!(Mode::MenuPrompt.next("1\n"), Mode::RunningTimer(Preset::Work));
    assert_eq!(Mode::MenuPrompt.next("4\n"), Mode::RunningTimer(Preset::Test));
    assert_eq!(Mode::MenuPrompt.next("5\n"), Mode::ViewingLog);
    assert_eq!(Mode::MenuPrompt.next("6\n"), Mode::Exited);
    assert_eq!(Mode::RunningTimer(Preset::Work).next("\n"), Mode::MenuPrompt);
    assert_eq!(Mode::ViewingLog.next("anything\n"), Mode::MenuPrompt);
    assert_eq!(Mode::Exited.next("1\n"), Mode::Exited);
}
