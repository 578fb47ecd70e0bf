//! The core of the tracker: lay the phase sequence out end to end from time
//! zero and find the segment that contains the elapsed time.
//!
//! One outer cycle is `work_blocks - 1` repetitions of (work, short break)
//! followed by one final work block and one long break; the cycle then
//! repeats forever.

use vstd::prelude::*;

use crate::state::State;

verus! {

/// The phase a session is in, together with the seconds left of it.
#[derive(Clone, Copy, Debug, PartialEq, Eq, Structural)]
pub enum CurrentStates {
    Work { remaining: u64 },
    ShortBreak { remaining: u64 },
    LongBreak { remaining: u64 },
}

/// Seconds in the tail of one outer cycle that still holds `pairs`
/// (work, short break) pairs before the closing work block and long break.
pub open spec fn seg_len(pairs: nat, s: State) -> int
    decreases pairs,
{
    if pairs == 0 {
        s.work_duration + s.break_long
    } else {
        s.work_duration + s.break_short + seg_len((pairs - 1) as nat, s)
    }
}

/// Seconds in one full outer cycle.
pub open spec fn cycle_len(s: State) -> int {
    seg_len((s.work_blocks - 1) as nat, s)
}

/// The phase found `r` seconds into a cycle tail that still holds `pairs`
/// (work, short break) pairs before the closing work block and long break.
/// Meaningful for `0 <= r < seg_len(pairs, s)`.
pub open spec fn walk(r: int, pairs: nat, s: State) -> CurrentStates
    decreases pairs,
{
    if r < s.work_duration {
        CurrentStates::Work { remaining: (s.work_duration - r) as u64 }
    } else if pairs == 0 {
        CurrentStates::LongBreak { remaining: (s.work_duration + s.break_long - r) as u64 }
    } else if r < s.work_duration + s.break_short {
        CurrentStates::ShortBreak { remaining: (s.work_duration + s.break_short - r) as u64 }
    } else {
        walk(r - s.work_duration - s.break_short, (pairs - 1) as nat, s)
    }
}

/// The phase `elapsed` seconds after a session started.
pub open spec fn phase_at(elapsed: int, s: State) -> CurrentStates {
    walk(elapsed % cycle_len(s), (s.work_blocks - 1) as nat, s)
}

/// The remaining time is positive and no more than the active phase's own
/// configured duration.
pub open spec fn phase_remaining_ok(p: CurrentStates, s: State) -> bool {
    match p {
        CurrentStates::Work { remaining } => 0 < remaining <= s.work_duration,
        CurrentStates::ShortBreak { remaining } => 0 < remaining <= s.break_short,
        CurrentStates::LongBreak { remaining } => 0 < remaining <= s.break_long,
    }
}

/// Every cycle tail is at least one work block and one long break long.
pub proof fn lemma_seg_len_lower_bound(pairs: nat, s: State)
    requires
        s.wf(),
    ensures
        seg_len(pairs, s) >= s.work_duration + s.break_long >= 2,
    decreases pairs,
{
    if pairs > 0 {
        lemma_seg_len_lower_bound((pairs - 1) as nat, s);
    }
}

/// Within its meaningful domain the walk always lands in a phase whose
/// remaining time is positive and bounded by that phase's duration.
pub proof fn lemma_walk_remaining_ok(r: int, pairs: nat, s: State)
    requires
        s.wf(),
        0 <= r < seg_len(pairs, s),
    ensures
        phase_remaining_ok(walk(r, pairs, s), s),
    decreases pairs,
{
    if r >= s.work_duration && pairs != 0 && r >= s.work_duration + s.break_short {
        lemma_walk_remaining_ok(r - s.work_duration - s.break_short, (pairs - 1) as nat, s);
    }
}

/// For every non-negative elapsed time and well-formed cadence, the phase
/// computation yields one of the three phases with a remaining time between
/// zero (exclusive) and that phase's configured duration (inclusive).
pub proof fn lemma_phase_remaining_bounds(elapsed: int, s: State)
    requires
        s.wf(),
        elapsed >= 0,
    ensures
        phase_remaining_ok(phase_at(elapsed, s), s),
{
    lemma_seg_len_lower_bound((s.work_blocks - 1) as nat, s);
    vstd::arithmetic::div_mod::lemma_mod_bound(elapsed, cycle_len(s));
    lemma_walk_remaining_ok(elapsed % cycle_len(s), (s.work_blocks - 1) as nat, s);
}

/// The phase sequence is cyclic: moving one full outer cycle forward lands in
/// the same phase with the same remaining time.
pub proof fn lemma_phase_cyclic(elapsed: int, s: State)
    requires
        s.wf(),
        elapsed >= 0,
    ensures
        phase_at(elapsed + cycle_len(s), s) == phase_at(elapsed, s),
{
    lemma_seg_len_lower_bound((s.work_blocks - 1) as nat, s);
    vstd::arithmetic::div_mod::lemma_mod_add_multiples_vanish(elapsed, cycle_len(s));
}

/// An elapsed time equal to the sum of all durations in one full outer cycle
/// wraps back to a work phase with its full duration remaining.
pub proof fn lemma_cycle_wraps_to_work(s: State)
    requires
        s.wf(),
    ensures
        phase_at(cycle_len(s), s) == (CurrentStates::Work { remaining: s.work_duration }),
{
    lemma_seg_len_lower_bound((s.work_blocks - 1) as nat, s);
    vstd::arithmetic::div_mod::lemma_mod_self_0(cycle_len(s));
}

/// Find the phase that contains `elapsed` (seconds since the session
/// started) and how many seconds of it are left.
pub fn current_pomo_state(elapsed: u64, state: &State) -> (r: CurrentStates)
    requires
        state.wf(),
    ensures
        r == phase_at(elapsed as int, *state),
        phase_remaining_ok(r, *state),
{
    let work = state.work_duration as u128;
    let short = state.break_short as u128;
    let long = state.break_long as u128;
    let pairs: u8 = state.work_blocks - 1;

    let mut cycle: u128 = work + long;
    for i in 0..pairs
        invariant
            state.wf(),
            work == state.work_duration,
            short == state.break_short,
            long == state.break_long,
            pairs == state.work_blocks - 1,
            cycle == seg_len(i as nat, *state),
            cycle <= 0x2_0000_0000_0000_0000 + (i as int) * 0x2_0000_0000_0000_0000,
    {
        cycle = cycle + work + short;
    }
    proof {
        lemma_seg_len_lower_bound(pairs as nat, *state);
        vstd::arithmetic::div_mod::lemma_mod_bound(elapsed as int, cycle as int);
    }

    let mut rem: u128 = (elapsed as u128) % cycle;
    let ghost rem0: int = rem as int;
    for i in 0..pairs
        invariant
            state.wf(),
            work == state.work_duration,
            short == state.break_short,
            long == state.break_long,
            pairs == state.work_blocks - 1,
            rem0 == elapsed as int % cycle_len(*state),
            walk(rem0, pairs as nat, *state) == walk(rem as int, (pairs - i) as nat, *state),
            rem < seg_len((pairs - i) as nat, *state),
    {
        if rem < work {
            return CurrentStates::Work { remaining: (work - rem) as u64 };
        }
        rem = rem - work;
        if rem < short {
            return CurrentStates::ShortBreak { remaining: (short - rem) as u64 };
        }
        rem = rem - short;
    }
    if rem < work {
        return CurrentStates::Work { remaining: (work - rem) as u64 };
    }
    rem = rem - work;
    CurrentStates::LongBreak { remaining: (long - rem) as u64 }
}

} // verus!
