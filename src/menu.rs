use vstd::prelude::*;
use vstd::string::StrSliceExecFns;
use crate::text::{trim, trimmed, trim_start, trim_end};

verus! {

/// One of the fixed timer settings that the menu offers.
#[derive(Clone, Copy, Debug, PartialEq, Eq, Structural)]
pub enum Preset {
    Work,
    ShortBreak,
    LongBreak,
    Test,
}

/// The length of a preset, in minutes.
pub open spec fn preset_minutes(p: Preset) -> nat {
    match p {
        Preset::Work => 25,
        Preset::ShortBreak => 5,
        Preset::LongBreak => 15,
        Preset::Test => 1,
    }
}

/// The name of a preset's session type, as the log shows it.
pub open spec fn preset_label(p: Preset) -> Seq<char> {
    match p {
        Preset::Work => "Work"@,
        Preset::ShortBreak => "Short Break"@,
        Preset::LongBreak => "Long Break"@,
        Preset::Test => "Test"@,
    }
}

impl Preset {
    /// The length of this preset, in minutes.
    pub fn minutes(&self) -> (r: u32)
        ensures
            r == preset_minutes(*self),
    {
        match self {
            Preset::Work => 25,
            Preset::ShortBreak => 5,
            Preset::LongBreak => 15,
            Preset::Test => 1,
        }
    }

    /// The name of this preset's session type.
    pub fn label(&self) -> (r: &'static str)
        ensures
            r@ == preset_label(*self),
    {
        match self {
            Preset::Work => "Work",
            Preset::ShortBreak => "Short Break",
            Preset::LongBreak => "Long Break",
            Preset::Test => "Test",
        }
    }
}

/// What a line typed at the menu asks for.
#[derive(Clone, Copy, Debug, PartialEq, Eq, Structural)]
pub enum Choice {
    Start(Preset),
    ViewLog,
    Exit,
    Invalid,
}

/// The choice that the text `t` (already trimmed) names: a single digit
/// from 1 to 6, anything else being invalid.
pub open spec fn choice_of(t: Seq<char>) -> Choice {
    if t == seq!['1'] {
        Choice::Start(Preset::Work)
    } else if t == seq!['2'] {
        Choice::Start(Preset::ShortBreak)
    } else if t == seq!['3'] {
        Choice::Start(Preset::LongBreak)
    } else if t == seq!['4'] {
        Choice::Start(Preset::Test)
    } else if t == seq!['5'] {
        Choice::ViewLog
    } else if t == seq!['6'] {
        Choice::Exit
    } else {
        Choice::Invalid
    }
}

/// The choice that the menu line `line` names, white space around it
/// ignored.
pub fn parse_choice(line: &str) -> (r: Choice)
    ensures
        r == choice_of(trimmed(line@)),
{
    let t = trim(line);
    if t.unicode_len() != 1 {
        return Choice::Invalid;
    }
    let c = t.get_char(0);
    assert(t@ =~= seq![c]);
    if c == '1' {
        Choice::Start(Preset::Work)
    } else if c == '2' {
        Choice::Start(Preset::ShortBreak)
    } else if c == '3' {
        Choice::Start(Preset::LongBreak)
    } else if c == '4' {
        Choice::Start(Preset::Test)
    } else if c == '5' {
        Choice::ViewLog
    } else if c == '6' {
        Choice::Exit
    } else {
        Choice::Invalid
    }
}

/// Where the program stands.
#[derive(Clone, Copy, Debug, PartialEq, Eq, Structural)]
pub enum Mode {
    /// Waiting for a menu choice.
    MenuPrompt,
    /// A session of the preset is counting down, then logged.
    RunningTimer(Preset),
    /// The log is shown.
    ViewingLog,
    /// The program has ended.
    Exited,
}

/// The mode that follows `m` once the line `line` has been read: at the
/// menu, the line is a choice; while a timer runs or the log is shown, it
/// is the line that ends the pause after that, and the menu comes back.
pub open spec fn next_mode(m: Mode, line: Seq<char>) -> Mode {
    match m {
        Mode::MenuPrompt => match choice_of(trimmed(line)) {
            Choice::Start(p) => Mode::RunningTimer(p),
            Choice::ViewLog => Mode::ViewingLog,
            Choice::Exit => Mode::Exited,
            Choice::Invalid => Mode::MenuPrompt,
        },
        Mode::RunningTimer(_) => Mode::MenuPrompt,
        Mode::ViewingLog => Mode::MenuPrompt,
        Mode::Exited => Mode::Exited,
    }
}

impl Mode {
    /// The mode that follows this one once `line` has been read.
    pub fn next(self, line: &str) -> (r: Mode)
        ensures
            r == next_mode(self, line@),
    {
        match self {
            Mode::MenuPrompt => match parse_choice(line) {
                Choice::Start(p) => Mode::RunningTimer(p),
                Choice::ViewLog => Mode::ViewingLog,
                Choice::Exit => Mode::Exited,
                Choice::Invalid => Mode::MenuPrompt,
            },
            Mode::RunningTimer(_) => Mode::MenuPrompt,
            Mode::ViewingLog => Mode::MenuPrompt,
            Mode::Exited => Mode::Exited,
        }
    }
}

/// A menu line that names none of the six choices leaves the program at the
/// menu: no timer starts, the log is neither shown nor written, and the
/// program goes on.
pub proof fn lemma_invalid_choice_stays(line: Seq<char>)
    requires
        choice_of(trimmed(line)) == Choice::Invalid,
    ensures
        next_mode(Mode::MenuPrompt, line) == Mode::MenuPrompt,
        !(next_mode(Mode::MenuPrompt, line) is RunningTimer),
        next_mode(Mode::MenuPrompt, line) != Mode::ViewingLog,
        next_mode(Mode::MenuPrompt, line) != Mode::Exited,
{
}

/// A line is an invalid choice exactly when, trimmed, it is none of the
/// digits 1 to 6; the lines `9` and `abc` are such lines.
pub proof fn lemma_invalid_choices(t: Seq<char>)
    ensures
        (choice_of(t) == Choice::Invalid) <==> !(t == seq!['1'] || t == seq!['2'] || t == seq!['3']
            || t == seq!['4'] || t == seq!['5'] || t == seq!['6']),
        choice_of(trimmed(seq!['9'])) == Choice::Invalid,
        choice_of(trimmed(seq!['a', 'b', 'c'])) == Choice::Invalid,
{
    let nine = seq!['9'];
    assert(trim_start(nine) == nine);
    assert(trim_end(nine) == nine);
    let abc = seq!['a', 'b', 'c'];
    assert(trim_start(abc) == abc);
    assert(trim_end(abc) == abc);
    assert(seq!['a', 'b', 'c'].len() == 3);
}

} // verus!
