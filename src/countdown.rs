use vstd::prelude::*;
use vstd::string::StringExecFns;
use crate::text::{padded, padded_decimal};

verus! {

/// What the clock shows with `s` seconds left: minutes and seconds, each
/// at least two digits wide, separated by a colon (`MM:SS`).
pub open spec fn clock_text(s: nat) -> Seq<char> {
    padded(s / 60, 2) + seq![':'] + padded(s % 60, 2)
}

/// The text of the clock with `remaining` seconds left.
pub fn clock_display(remaining: u32) -> (r: String)
    ensures
        r@ == clock_text(remaining as nat),
{
    let mut r = padded_decimal(remaining / 60, 2);
    let colon = ":";
    proof {
        reveal_strlit(":");
    }
    r.append(colon);
    let secs = padded_decimal(remaining % 60, 2);
    r.append(secs.as_str());
    r
}

/// A running countdown: the seconds that are left.
pub struct Countdown {
    pub remaining: u32,
}

/// One tick of a countdown with `remaining` seconds left: what it shows,
/// and the seconds left afterwards.
pub open spec fn tick_result(remaining: nat) -> (Option<Seq<char>>, nat) {
    if remaining == 0 {
        (None, 0)
    } else {
        (Some(clock_text(remaining)), (remaining - 1) as nat)
    }
}

/// The seconds left after `k` ticks of a countdown that had `remaining`.
pub open spec fn state_after(remaining: nat, k: nat) -> nat
    decreases k,
{
    if k == 0 {
        remaining
    } else {
        tick_result(state_after(remaining, (k - 1) as nat)).1
    }
}

/// What the tick numbered `k` (from zero) shows, of a countdown that had
/// `remaining` seconds left.
pub open spec fn shown_at(remaining: nat, k: nat) -> Option<Seq<char>> {
    tick_result(state_after(remaining, k)).0
}

proof fn lemma_state_after(total: nat, k: nat)
    ensures
        state_after(total, k) == if k <= total { (total - k) as nat } else { 0 },
    decreases k,
{
    if k > 0 {
        lemma_state_after(total, (k - 1) as nat);
    }
}

/// The countdown of a whole number of minutes (every preset among them)
/// first shows the full duration, then one second less at each tick, down
/// to `00:01`; after that it shows nothing more.
pub proof fn lemma_countdown_steps(minutes: nat)
    requires
        minutes >= 1,
    ensures
        shown_at(minutes * 60, 0) == Some(clock_text(minutes * 60)),
        forall|k: nat| k < minutes * 60 ==> #[trigger] shown_at(minutes * 60, k) == Some(
            clock_text((minutes * 60 - k) as nat),
        ),
        forall|k: nat| k + 1 < minutes * 60 ==> #[trigger] state_after(minutes * 60, k + 1) + 1
            == state_after(minutes * 60, k),
        shown_at(minutes * 60, (minutes * 60 - 1) as nat) == Some(seq!['0', '0', ':', '0', '1']),
        forall|k: nat| k >= minutes * 60 ==> #[trigger] shown_at(minutes * 60, k) is None,
{
    let total = minutes * 60;
    assert forall|k: nat| k < total implies shown_at(total, k) == Some(
        clock_text((total - k) as nat),
    ) by {
        lemma_state_after(total, k);
    }
    assert forall|k: nat| k + 1 < total implies #[trigger] state_after(total, k + 1) + 1 == state_after(
        total,
        k,
    ) by {
        lemma_state_after(total, k);
        lemma_state_after(total, k + 1);
    }
    assert forall|k: nat| k >= total implies shown_at(total, k) is None by {
        lemma_state_after(total, k);
    }
    assert(shown_at(total, 0) == Some(clock_text(total)));
    assert(shown_at(total, (total - 1) as nat) == Some(clock_text(1)));
    assert(padded(0, 2) =~= seq!['0', '0']);
    assert(padded(1, 2) =~= seq!['0', '1']);
    assert(clock_text(1) =~= seq!['0', '0', ':', '0', '1']);
}

impl Countdown {
    /// A countdown of `minutes` whole minutes.
    pub fn new(minutes: u32) -> (r: Countdown)
        requires
            minutes * 60 <= u32::MAX,
        ensures
            r.remaining == minutes * 60,
    {
        Countdown { remaining: minutes * 60 }
    }

    /// Whether the countdown has reached zero.
    pub fn is_done(&self) -> (r: bool)
        ensures
            r == (self.remaining == 0),
    {
        self.remaining == 0
    }

    /// One tick: while time is left, returns the clock text for the seconds
    /// left now and takes one second off; at zero, returns `None` and stays.
    pub fn tick(&mut self) -> (r: Option<String>)
        ensures
            r is None ==> tick_result(old(self).remaining as nat).0 is None,
            r is Some ==> tick_result(old(self).remaining as nat).0 == Some(r->Some_0@),
            final(self).remaining == tick_result(old(self).remaining as nat).1,
    {
        if self.remaining == 0 {
            None
        } else {
            let text = clock_display(self.remaining);
            self.remaining = self.remaining - 1;
            Some(text)
        }
    }
}

} // verus!
