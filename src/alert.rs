use vstd::prelude::*;
use vstd::string::StringExecFns;

verus! {

/// The operating systems that the alert knows commands for.
#[derive(Clone, Copy, Debug, PartialEq, Eq, Structural)]
pub enum Platform {
    MacOs,
    Linux,
    Other,
}

/// A command to start: a program and its arguments.
pub struct Invocation {
    pub program: String,
    pub args: Vec<String>,
}

impl View for Invocation {
    type V = (Seq<char>, Seq<Seq<char>>);

    open spec fn view(&self) -> (Seq<char>, Seq<Seq<char>>) {
        (self.program@, self.args@.map_values(|a: String| a@))
    }
}

/// The text of the alert for a session of type `label`.
pub open spec fn alert_text(label: Seq<char>) -> Seq<char> {
    label + " session complete!"@
}

/// The title that notifications carry.
pub open spec fn title_text() -> Seq<char> {
    "\u{1F345} Pomodoro Timer"@
}

/// The steps of the alert for a session of type `label` on `platform`. Each
/// step is a list of commands: the first that starts is the step's, and the
/// rest of the list is skipped. A failure is not reported.
pub open spec fn alert_steps(platform: Platform, label: Seq<char>) -> Seq<
    Seq<(Seq<char>, Seq<Seq<char>>)>,
> {
    match platform {
        Platform::MacOs => seq![
            seq![
                (
                    "osascript"@,
                    seq![
                        "-e"@,
                        "display notification \""@ + alert_text(label) + "\" with title \""@
                            + title_text() + "\" sound name \"Glass\""@,
                    ],
                ),
            ],
            seq![("afplay"@, seq!["/System/Library/Sounds/Glass.aiff"@])],
        ],
        Platform::Linux => seq![
            seq![("notify-send"@, seq![title_text(), alert_text(label)])],
            seq![
                ("paplay"@, seq!["/usr/share/sounds/freedesktop/stereo/complete.oga"@]),
                ("aplay"@, seq!["/usr/share/sounds/alsa/Front_Center.wav"@]),
            ],
        ],
        Platform::Other => seq![],
    }
}

/// The text of the alert for a session of type `label`.
pub fn alert_message(label: &str) -> (r: String)
    ensures
        r@ == alert_text(label@),
{
    let mut r = String::from_str(label);
    r.append(" session complete!");
    r
}

fn invocation(program: &str, args: Vec<String>) -> (r: Invocation)
    ensures
        r.program@ == program@,
        r.args@ == args@,
{
    Invocation { program: String::from_str(program), args }
}

/// The commands that alert the user that a session of type `label` has
/// ended, step by step (see `alert_steps`).
pub fn alert_plan(platform: Platform, label: &str) -> (r: Vec<Vec<Invocation>>)
    ensures
        r@.map_values(|step: Vec<Invocation>| step@.map_values(|i: Invocation| i@))
            == alert_steps(platform, label@),
{
    let message = alert_message(label);
    let mut steps: Vec<Vec<Invocation>> = Vec::new();
    match platform {
        Platform::MacOs => {
            let mut script = String::from_str("display notification \"");
            script.append(message.as_str());
            script.append("\" with title \"");
            script.append("\u{1F345} Pomodoro Timer");
            script.append("\" sound name \"Glass\"");
            let notify = invocation("osascript", vec![String::from_str("-e"), script]);
            let sound = invocation(
                "afplay",
                vec![String::from_str("/System/Library/Sounds/Glass.aiff")],
            );
            steps.push(vec![notify]);
            steps.push(vec![sound]);
        },
        Platform::Linux => {
            let notify = invocation(
                "notify-send",
                vec![String::from_str("\u{1F345} Pomodoro Timer"), message],
            );
            let pulse = invocation(
                "paplay",
                vec![String::from_str("/usr/share/sounds/freedesktop/stereo/complete.oga")],
            );
            let alsa = invocation(
                "aplay",
                vec![String::from_str("/usr/share/sounds/alsa/Front_Center.wav")],
            );
            steps.push(vec![notify]);
            steps.push(vec![pulse, alsa]);
        },
        Platform::Other => {},
    }
    proof {
        let v = steps@.map_values(|step: Vec<Invocation>| step@.map_values(|i: Invocation| i@));
        assert(v =~~= alert_steps(platform, label@));
    }
    steps
}

} // verus!
