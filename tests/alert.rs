use pomodoro::alert::{alert_message, alert_plan, Platform};

#[test]
fn message_names_the_session() {
    assert_eq!(alert_message("Work"), "Work session complete!");
}

#[test]
fn linux_plan() {
    let plan = alert_plan(Platform::Linux, "Test");
    assert_eq!(plan.len(), 2);
    assert_eq!(plan[0].len(), 1);
    assert_eq!(plan[0][0].program, "notify-send");
    assert_eq!(plan[0][0].args, vec!["\u{1F345} Pomodoro Timer".to_string(), "Test session complete!".to_string()]);
    assert_eq!(plan[1].len(), 2);
    assert_eq!(plan[1][0].program, "paplay");
    assert_eq!(plan[1][0].args, vec!["/usr/share/sounds/freedesktop/stereo/complete.oga".to_string()]);
    assert_eq!(plan[1][1].program, "aplay");
    assert_eq!(plan[1][1].args, vec!["/usr/share/sounds/alsa/Front_Center.wav".to_string()]);
}

#[test]
fn macos_plan() {
    let plan = alert_plan(Platform::MacOs, "Work");
    assert_eq!(plan.len(), 2);
    assert_eq!(plan[0][0].program, "osascript");
    assert_eq!(
        plan[0][0].args,
        vec![
            "-e".to_string(),
            "display notification \"Work session complete!\" with title \"\u{1F345} Pomodoro Timer\" sound name \"Glass\"".to_string()
        ]
    );
    assert_eq!(plan[1][0].program, "afplay");
    assert_eq!(plan[1][0].args, vec!["/System/Library/Sounds/Glass.aiff".to_string()]);
}

#[test]
fn other_platforms_plan_nothing() {
    assert!(alert_plan(Platform::Other, "Work").is_empty());
}
