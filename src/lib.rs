//! A countdown ("Pomodoro") timer: its menu state machine, the countdown
//! clock, the alert plan, and the session log's line format.

pub mod alert;
pub mod clock;
pub mod countdown;
pub mod menu;
pub mod session;
pub mod text;
