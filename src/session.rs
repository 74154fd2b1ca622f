use vstd::prelude::*;
use vstd::string::StringExecFns;
use vstd::string::StrSliceExecFns;
use crate::clock::{Timestamp, date_text, time_text, local_now, date_display, time_display};
use crate::countdown::{Countdown, tick_result};
use crate::menu::{Preset, preset_minutes, preset_label};
use crate::text::{digits, decimal, trim, trimmed};

verus! {

/// A completed session, as the log records it.
pub struct SessionRecord {
    pub session_type: Preset,
    pub duration_minutes: u32,
    pub start: Timestamp,
    pub end: Timestamp,
    /// The note, with white space around it removed; empty for none.
    pub note: String,
}

/// The fields that every log line starts with: date, session type,
/// duration, start and end time, separated by ` | `.
pub open spec fn entry_fields(
    label: Seq<char>,
    duration: nat,
    start: Timestamp,
    end: Timestamp,
) -> Seq<char> {
    date_text(start) + " | "@ + label + " | "@ + digits(duration) + " minutes"@ + " | Started: "@
        + time_text(start) + " | Ended: "@ + time_text(end)
}

/// The log line of a session, its newline included: the fields, with a
/// `Note: ...` field after them only when the note is not empty.
pub open spec fn entry_text(
    label: Seq<char>,
    duration: nat,
    start: Timestamp,
    end: Timestamp,
    note: Seq<char>,
) -> Seq<char> {
    let fields = entry_fields(label, duration, start, end);
    if note.len() == 0 {
        fields + "\n"@
    } else {
        fields + " | Note: "@ + note + "\n"@
    }
}

/// The log line of the record `r`.
pub open spec fn record_text(r: SessionRecord) -> Seq<char> {
    entry_text(preset_label(r.session_type), r.duration_minutes as nat, r.start, r.end, r.note@)
}

/// The log line of a session of type `session_type` that lasted `duration`
/// minutes from `start` to `end`, with the note `note` (already trimmed).
pub fn log_line(
    session_type: &str,
    duration: u32,
    start: &Timestamp,
    end: &Timestamp,
    note: &str,
) -> (r: String)
    ensures
        r@ == entry_text(session_type@, duration as nat, *start, *end, note@),
{
    let mut r = date_display(start);
    r.append(" | ");
    r.append(session_type);
    r.append(" | ");
    let d = decimal(duration);
    r.append(d.as_str());
    r.append(" minutes");
    r.append(" | Started: ");
    let s = time_display(start);
    r.append(s.as_str());
    r.append(" | Ended: ");
    let e = time_display(end);
    r.append(e.as_str());
    if note.unicode_len() != 0 {
        r.append(" | Note: ");
        r.append(note);
    }
    r.append("\n");
    r
}

impl SessionRecord {
    /// The line that this record adds to the log.
    pub fn log_line(&self) -> (r: String)
        ensures
            r@ == record_text(*self),
    {
        log_line(
            self.session_type.label(),
            self.duration_minutes,
            &self.start,
            &self.end,
            self.note.as_str(),
        )
    }

    /// Sets the note to the line `line` that the user typed, white space
    /// around it removed.
    pub fn set_note(&mut self, line: &str)
        ensures
            final(self).note@ == trimmed(line@),
            final(self).session_type == old(self).session_type,
            final(self).duration_minutes == old(self).duration_minutes,
            final(self).start == old(self).start,
            final(self).end == old(self).end,
    {
        self.note = String::from_str(trim(line));
    }
}

/// A session whose countdown is under way.
pub struct RunningSession {
    pub session_type: Preset,
    pub start: Timestamp,
    pub countdown: Countdown,
}

impl RunningSession {
    /// Starts a session of the preset `p`: the start time is now, and the
    /// countdown holds the preset's whole length.
    pub fn start(p: Preset) -> (r: RunningSession)
        ensures
            r.session_type == p,
            r.start.wf(),
            r.countdown.remaining == preset_minutes(p) * 60,
    {
        let start = local_now();
        let countdown = Countdown::new(p.minutes());
        RunningSession { session_type: p, start, countdown }
    }

    /// One tick of the countdown (see `Countdown::tick`).
    pub fn tick(&mut self) -> (r: Option<String>)
        ensures
            r is None ==> tick_result(old(self).countdown.remaining as nat).0 is None,
            r is Some ==> tick_result(old(self).countdown.remaining as nat).0 == Some(
                r->Some_0@,
            ),
            final(self).countdown.remaining == tick_result(
                old(self).countdown.remaining as nat,
            ).1,
            final(self).session_type == old(self).session_type,
            final(self).start == old(self).start,
    {
        self.countdown.tick()
    }

    /// Ends the session once its countdown is done: the end time is now, and
    /// the record has no note yet.
    pub fn finish(self) -> (r: SessionRecord)
        requires
            self.countdown.remaining == 0,
        ensures
            r.session_type == self.session_type,
            r.duration_minutes == preset_minutes(self.session_type),
            r.start == self.start,
            r.end.wf(),
            r.note@.len() == 0,
    {
        let end = local_now();
        RunningSession::finish_at(self, end)
    }

    /// The record of this session, ended at `end`, with no note yet.
    pub fn finish_at(self, end: Timestamp) -> (r: SessionRecord)
        ensures
            r.session_type == self.session_type,
            r.duration_minutes == preset_minutes(self.session_type),
            r.start == self.start,
            r.end == end,
            r.note@.len() == 0,
    {
        SessionRecord {
            session_type: self.session_type,
            duration_minutes: self.session_type.minutes(),
            start: self.start,
            end,
            note: String::new(),
        }
    }
}

/// The placeholder shown when no session has been logged.
pub open spec fn no_sessions_text() -> Seq<char> {
    "No sessions logged yet.\n"@
}

/// What viewing the log shows, given the log's contents (`None` when there
/// is no log): the contents as they are, or the placeholder when there are
/// none.
pub fn log_view(contents: Option<&str>) -> (r: String)
    ensures
        match contents {
            Some(c) if c@.len() > 0 => r@ == c@,
            _ => r@ == no_sessions_text(),
        },
{
    match contents {
        Some(c) => {
            if c.unicode_len() > 0 {
                String::from_str(c)
            } else {
                String::from_str("No sessions logged yet.\n")
            }
        },
        None => String::from_str("No sessions logged yet.\n"),
    }
}

/// `s` holds no newline.
pub open spec fn single_line(s: Seq<char>) -> bool {
    forall|i: int| 0 <= i < s.len() ==> s[i] != '\n'
}

/// The lines of `t`: the pieces between newlines, a last piece without a
/// newline after it counting as a line, an empty text having none.
pub open spec fn split_lines(t: Seq<char>) -> Seq<Seq<char>>
    decreases t.len(),
{
    if t.len() == 0 {
        seq![]
    } else {
        let rest = split_lines(t.drop_first());
        if t[0] == '\n' {
            seq![seq![]] + rest
        } else if rest.len() == 0 {
            seq![seq![t[0]]]
        } else {
            rest.update(0, seq![t[0]] + rest[0])
        }
    }
}

/// The text of a log to which the lines `lines` were appended in order.
pub open spec fn joined(lines: Seq<Seq<char>>) -> Seq<char>
    decreases lines.len(),
{
    if lines.len() == 0 {
        seq![]
    } else {
        joined(lines.drop_last()) + lines.last()
    }
}

proof fn lemma_concat_single_line(a: Seq<char>, b: Seq<char>)
    requires
        single_line(a),
        single_line(b),
    ensures
        single_line(a + b),
{
    assert forall|i: int| 0 <= i < (a + b).len() implies (a + b)[i] != '\n' by {
        if i >= a.len() {
            assert((a + b)[i] == b[i - a.len()]);
        }
    }
}

proof fn lemma_digits_single_line(n: nat)
    ensures
        single_line(digits(n)),
    decreases n,
{
    if n >= 10 {
        lemma_digits_single_line(n / 10);
        lemma_concat_single_line(digits(n / 10), seq![crate::text::digit_char(n % 10)]);
    }
}

proof fn lemma_padded_single_line(n: nat, w: nat)
    ensures
        single_line(crate::text::padded(n, w)),
{
    lemma_digits_single_line(n);
    let d = digits(n);
    if d.len() < w {
        let z = Seq::new((w - d.len()) as nat, |i: int| '0');
        lemma_concat_single_line(z, d);
    }
}

proof fn lemma_fields_single_line(label: Seq<char>, duration: nat, start: Timestamp, end: Timestamp)
    requires
        single_line(label),
    ensures
        single_line(entry_fields(label, duration, start, end)),
{
    reveal_strlit(" | ");
    reveal_strlit(" minutes");
    reveal_strlit(" | Started: ");
    reveal_strlit(" | Ended: ");
    let y = start.year as int;
    lemma_padded_single_line(y as nat, 4);
    lemma_padded_single_line((-y) as nat, 4);
    lemma_concat_single_line(seq!['-'], crate::text::padded((-y) as nat, 4));
    lemma_concat_single_line(seq!['+'], crate::text::padded(y as nat, 4));
    let ye = crate::clock::year_text(y);
    lemma_padded_single_line(start.month as nat, 2);
    lemma_padded_single_line(start.day as nat, 2);
    let date = date_text(start);
    lemma_concat_single_line(ye, seq!['-']);
    lemma_concat_single_line(ye + seq!['-'], crate::text::padded(start.month as nat, 2));
    lemma_concat_single_line(ye + seq!['-'] + crate::text::padded(start.month as nat, 2), seq!['-']);
    lemma_concat_single_line(
        ye + seq!['-'] + crate::text::padded(start.month as nat, 2) + seq!['-'],
        crate::text::padded(start.day as nat, 2),
    );
    assert(single_line(date));
    lemma_time_single_line(start);
    lemma_time_single_line(end);
    lemma_digits_single_line(duration);
    let f1 = date + " | "@;
    lemma_concat_single_line(date, " | "@);
    lemma_concat_single_line(f1, label);
    lemma_concat_single_line(f1 + label, " | "@);
    let f2 = f1 + label + " | "@;
    lemma_concat_single_line(f2, digits(duration));
    lemma_concat_single_line(f2 + digits(duration), " minutes"@);
    let f3 = f2 + digits(duration) + " minutes"@;
    lemma_concat_single_line(f3, " | Started: "@);
    lemma_concat_single_line(f3 + " | Started: "@, time_text(start));
    let f4 = f3 + " | Started: "@ + time_text(start);
    lemma_concat_single_line(f4, " | Ended: "@);
    lemma_concat_single_line(f4 + " | Ended: "@, time_text(end));
}

proof fn lemma_time_single_line(t: Timestamp)
    ensures
        single_line(time_text(t)),
{
    let h = crate::text::padded(t.hour as nat, 2);
    let m = crate::text::padded(t.minute as nat, 2);
    let s = crate::text::padded(t.second as nat, 2);
    lemma_padded_single_line(t.hour as nat, 2);
    lemma_padded_single_line(t.minute as nat, 2);
    lemma_padded_single_line(t.second as nat, 2);
    lemma_concat_single_line(h, seq![':']);
    lemma_concat_single_line(h + seq![':'], m);
    lemma_concat_single_line(h + seq![':'] + m, seq![':']);
    lemma_concat_single_line(h + seq![':'] + m + seq![':'], s);
}

/// The body of a log line: the line without its newline.
pub open spec fn entry_body(label: Seq<char>, duration: nat, start: Timestamp, end: Timestamp, note: Seq<char>) -> Seq<char> {
    let fields = entry_fields(label, duration, start, end);
    if note.len() == 0 {
        fields
    } else {
        fields + " | Note: "@ + note
    }
}

proof fn lemma_entry_shape(label: Seq<char>, duration: nat, start: Timestamp, end: Timestamp, note: Seq<char>)
    requires
        single_line(label),
        single_line(note),
    ensures
        single_line(entry_body(label, duration, start, end, note)),
        entry_text(label, duration, start, end, note) == entry_body(label, duration, start, end, note) + seq!['\n'],
{
    reveal_strlit("\n");
    reveal_strlit(" | Note: ");
    let fields = entry_fields(label, duration, start, end);
    lemma_fields_single_line(label, duration, start, end);
    lemma_concat_single_line(fields, " | Note: "@);
    lemma_concat_single_line(fields + " | Note: "@, note);
    assert("\n"@ =~= seq!['\n']);
}

proof fn lemma_split_first_line(a: Seq<char>, rest: Seq<char>)
    requires
        single_line(a),
    ensures
        split_lines(a + seq!['\n'] + rest) == seq![a] + split_lines(rest),
    decreases a.len(),
{
    let t = a + seq!['\n'] + rest;
    if a.len() == 0 {
        assert(t.drop_first() =~= rest);
        assert(a =~= Seq::<char>::empty());
    } else {
        let a2 = a.drop_first();
        assert(single_line(a2)) by {
            assert forall|i: int| 0 <= i < a2.len() implies a2[i] != '\n' by {
                assert(a2[i] == a[i + 1]);
            }
        }
        lemma_split_first_line(a2, rest);
        assert(t.drop_first() =~= a2 + seq!['\n'] + rest);
        assert(t[0] == a[0]);
        assert(a[0] != '\n');
        let r2 = split_lines(t.drop_first());
        assert(r2 == seq![a2] + split_lines(rest));
        assert(seq![a[0]] + a2 =~= a);
        assert(r2.update(0, seq![t[0]] + r2[0]) =~= seq![a] + split_lines(rest));
    }
}

proof fn lemma_joined_push(lines: Seq<Seq<char>>, x: Seq<char>)
    ensures
        joined(lines.push(x)) == joined(lines) + x,
{
    assert(lines.push(x).drop_last() =~= lines);
}

/// `joined`, taken from the front.
proof fn lemma_joined_front(lines: Seq<Seq<char>>)
    requires
        lines.len() > 0,
    ensures
        joined(lines) == lines[0] + joined(lines.drop_first()),
    decreases lines.len(),
{
    if lines.len() > 1 {
        lemma_joined_front(lines.drop_last());
        assert(lines.drop_last().drop_first() =~= lines.drop_first().drop_last());
        assert(lines.drop_first().last() == lines.last());
        assert(lines.drop_last()[0] == lines[0]);
        assert(lines[0] + joined(lines.drop_first().drop_last()) + lines.last()
            =~= lines[0] + (joined(lines.drop_first().drop_last()) + lines.last()));
    } else {
        assert(lines.drop_last() =~= Seq::<Seq<char>>::empty());
        assert(lines.drop_first() =~= Seq::<Seq<char>>::empty());
        assert(joined(lines.drop_first()) =~= Seq::<char>::empty());
        assert(joined(lines.drop_last()) =~= Seq::<char>::empty());
        assert(lines[0] + Seq::<char>::empty() =~= lines[0]);
        assert(Seq::<char>::empty() + lines.last() =~= lines.last());
    }
}

proof fn lemma_split_joined(bodies: Seq<Seq<char>>)
    requires
        forall|i: int| 0 <= i < bodies.len() ==> single_line(#[trigger] bodies[i]),
    ensures
        split_lines(joined(bodies.map_values(|b: Seq<char>| b + seq!['\n']))) == bodies,
    decreases bodies.len(),
{
    let lines = bodies.map_values(|b: Seq<char>| b + seq!['\n']);
    if bodies.len() == 0 {
        assert(bodies =~= seq![]);
    } else {
        let rest = bodies.drop_first();
        assert(forall|i: int| 0 <= i < rest.len() ==> rest[i] == bodies[i + 1]);
        lemma_split_joined(rest);
        lemma_joined_front(lines);
        assert(lines.drop_first() =~= rest.map_values(|b: Seq<char>| b + seq!['\n']));
        lemma_split_first_line(bodies[0], joined(lines.drop_first()));
        assert(seq![bodies[0]] + rest =~= bodies);
    }
}

/// The log line of a session holds the `Note: ...` field exactly when the
/// note, trimmed from the typed line, is not empty, and then holds that
/// note verbatim, once, at the end; the line never holds a newline before
/// its last character.
pub proof fn lemma_note_field(
    label: Seq<char>,
    duration: nat,
    start: Timestamp,
    end: Timestamp,
    typed: Seq<char>,
)
    requires
        single_line(label),
        single_line(typed),
    ensures
        trimmed(typed).len() == 0 ==> entry_text(label, duration, start, end, trimmed(typed))
            == entry_fields(label, duration, start, end) + "\n"@,
        trimmed(typed).len() > 0 ==> entry_text(label, duration, start, end, trimmed(typed))
            == entry_fields(label, duration, start, end) + " | Note: "@ + trimmed(typed) + "\n"@,
        single_line(entry_body(label, duration, start, end, trimmed(typed))),
        entry_text(label, duration, start, end, trimmed(typed)) == entry_body(label, duration, start, end, trimmed(typed)) + seq!['\n'],
{
    lemma_trimmed_single_line(typed);
    lemma_entry_shape(label, duration, start, end, trimmed(typed));
}

proof fn lemma_trimmed_single_line(s: Seq<char>)
    requires
        single_line(s),
    ensures
        single_line(trimmed(s)),
{
    crate::text::lemma_trimmed_is_inside(s);
}

/// Appending the lines of `n` sessions to a log, one after another, gives a
/// log of exactly `n` lines, the line of each session in the order in which
/// they were appended.
pub proof fn lemma_log_lines(records: Seq<SessionRecord>)
    requires
        forall|i: int| 0 <= i < records.len() ==> single_line(#[trigger] records[i].note@),
    ensures
        split_lines(joined(records.map_values(|r: SessionRecord| record_text(r)))).len() == records.len(),
        forall|i: int| 0 <= i < records.len() ==> split_lines(joined(records.map_values(|r: SessionRecord| record_text(r))))[i] + seq!['\n'] == record_text(#[trigger] records[i]),
        forall|lines: Seq<Seq<char>>, x: Seq<char>| #[trigger] joined(lines.push(x)) == joined(lines) + x,
{
    let bodies = records.map_values(|r: SessionRecord| entry_body(preset_label(r.session_type), r.duration_minutes as nat, r.start, r.end, r.note@));
    assert forall|i: int| 0 <= i < records.len() implies single_line(#[trigger] bodies[i]) && bodies[i] + seq!['\n'] == record_text(records[i]) by {
        let r = records[i];
        lemma_label_single_line(r.session_type);
        lemma_entry_shape(preset_label(r.session_type), r.duration_minutes as nat, r.start, r.end, r.note@);
    }
    lemma_split_joined(bodies);
    assert(bodies.map_values(|b: Seq<char>| b + seq!['\n']) =~= records.map_values(|r: SessionRecord| record_text(r)));
    assert forall|lines: Seq<Seq<char>>, x: Seq<char>| #[trigger] joined(lines.push(x)) == joined(lines) + x by {
        lemma_joined_push(lines, x);
    }
}

proof fn lemma_label_single_line(p: Preset)
    ensures
        single_line(preset_label(p)),
{
    reveal_strlit("Work");
    reveal_strlit("Short Break");
    reveal_strlit("Long Break");
    reveal_strlit("Test");
}

} // verus!
