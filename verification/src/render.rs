//! The status line a running session shows: the active phase's label and the
//! time left of it as zero-padded minutes and seconds.

use vstd::prelude::*;
use vstd::string::*;

use crate::phase::{current_pomo_state, phase_at, CurrentStates};
use crate::state::State;
use crate::strutil::{pad2, u64_to_dec2};

verus! {

/// A remaining time rendered as `minutes:seconds`, each zero-padded to at
/// least two digits.
pub open spec fn clock(remaining: u64) -> Seq<char> {
    pad2((remaining / 60) as nat) + ":"@ + pad2((remaining % 60) as nat)
}

/// A phase rendered as its label followed by the time left of it.
pub open spec fn render_phase(p: CurrentStates) -> Seq<char> {
    match p {
        CurrentStates::Work { remaining } => "Stay Focused: "@ + clock(remaining),
        CurrentStates::ShortBreak { remaining } => "Short Break: "@ + clock(remaining),
        CurrentStates::LongBreak { remaining } => "Long Break: "@ + clock(remaining),
    }
}

/// Seconds elapsed since the session's anchor; a clock that reads earlier
/// than the anchor counts as no time elapsed.
pub open spec fn elapsed_at(s: State, now: u64) -> int {
    if now >= s.start {
        now - s.start
    } else {
        0
    }
}

/// The status line of a session at epoch second `now`: the rendered current
/// phase while the session runs, the empty string otherwise.
pub open spec fn update_spec(s: State, now: u64) -> Seq<char> {
    if s.running {
        render_phase(phase_at(elapsed_at(s, now), s))
    } else {
        Seq::<char>::empty()
    }
}

fn render_clock(remaining: u64) -> (r: String)
    ensures
        r@ == clock(remaining),
{
    let mut out = u64_to_dec2(remaining / 60);
    out.append(":");
    let seconds = u64_to_dec2(remaining % 60);
    out.append(seconds.as_str());
    out
}

/// The status line of a session at epoch second `now`.
pub fn update(state: &State, now: u64) -> (r: String)
    requires
        state.wf(),
    ensures
        r@ == update_spec(*state, now),
{
    if state.running {
        let elapsed = if now >= state.start {
            now - state.start
        } else {
            0
        };
        let phase = current_pomo_state(elapsed, state);
        let mut out = match phase {
            CurrentStates::Work { .. } => String::from_str("Stay Focused: "),
            CurrentStates::ShortBreak { .. } => String::from_str("Short Break: "),
            CurrentStates::LongBreak { .. } => String::from_str("Long Break: "),
        };
        let remaining = match phase {
            CurrentStates::Work { remaining } => remaining,
            CurrentStates::ShortBreak { remaining } => remaining,
            CurrentStates::LongBreak { remaining } => remaining,
        };
        let time = render_clock(remaining);
        out.append(time.as_str());
        out
    } else {
        String::new()
    }
}

} // verus!
