//! The flat session record: cadence durations, block count, running flag and
//! the epoch-second anchor the elapsed time is derived from.

use vstd::prelude::*;

verus! {

/// Default work length, in seconds (25 minutes).
pub const DEFAULT_WORK_SECS: u64 = 1500;

/// Default short-break length, in seconds (5 minutes).
pub const DEFAULT_BREAK_SHORT_SECS: u64 = 300;

/// Default long-break length, in seconds (30 minutes).
pub const DEFAULT_BREAK_LONG_SECS: u64 = 1800;

/// Default number of work blocks per long break.
pub const DEFAULT_WORK_BLOCKS: u8 = 3;

/// The session record persisted between invocations.
///
/// Durations are stored in whole seconds. `start` is an epoch-second
/// timestamp; elapsed time is always recomputed as `now - start`, never
/// stored.
#[derive(Clone, Copy, Debug, PartialEq, Eq, Structural)]
pub struct State {
    pub work_duration: u64,
    pub break_short: u64,
    pub break_long: u64,
    pub work_blocks: u8,
    pub running: bool,
    pub start: u64,
}

impl State {
    /// A usable cadence: every duration is positive and at least one work
    /// block precedes each long break.
    pub open spec fn wf(self) -> bool {
        &&& self.work_duration >= 1
        &&& self.break_short >= 1
        &&& self.break_long >= 1
        &&& self.work_blocks >= 1
    }

    /// The documented default record: 25 minute work, 5 minute short break,
    /// 30 minute long break, 3 blocks, not running, anchor at epoch.
    pub open spec fn default_spec() -> State {
        State {
            work_duration: DEFAULT_WORK_SECS,
            break_short: DEFAULT_BREAK_SHORT_SECS,
            break_long: DEFAULT_BREAK_LONG_SECS,
            work_blocks: DEFAULT_WORK_BLOCKS,
            running: false,
            start: 0,
        }
    }

    /// Replace the whole record with the documented defaults, whatever it
    /// held before.
    pub fn reset(&mut self)
        ensures
            *final(self) == State::default_spec(),
            final(self).wf(),
    {
        self.start = 0;
        self.work_duration = DEFAULT_WORK_SECS;
        self.break_short = DEFAULT_BREAK_SHORT_SECS;
        self.break_long = DEFAULT_BREAK_LONG_SECS;
        self.work_blocks = DEFAULT_WORK_BLOCKS;
        self.running = false;
    }

    /// Begin a session: anchor the record at `now` and mark it running.
    /// The cadence configuration is left untouched.
    pub fn start_session(&mut self, now: u64)
        ensures
            *final(self) == (State { start: now, running: true, ..*old(self) }),
    {
        self.start = now;
        self.running = true;
    }

    /// Overwrite each duration for which a minute count is provided; a value
    /// that is zero or whose second count would not fit in 64 bits leaves the
    /// stored duration untouched, as does an absent one.
    pub fn configure(
        &mut self,
        work_duration: Option<u64>,
        break_short: Option<u64>,
        break_long: Option<u64>,
    )
        ensures
            final(self).work_duration == configured_duration(
                old(self).work_duration,
                work_duration,
            ),
            final(self).break_short == configured_duration(old(self).break_short, break_short),
            final(self).break_long == configured_duration(old(self).break_long, break_long),
            final(self).work_blocks == old(self).work_blocks,
            final(self).running == old(self).running,
            final(self).start == old(self).start,
            old(self).wf() ==> final(self).wf(),
    {
        if let Some(minutes) = work_duration {
            if 1 <= minutes && minutes <= u64::MAX / 60 {
                self.work_duration = 60 * minutes;
            }
        }
        if let Some(minutes) = break_short {
            if 1 <= minutes && minutes <= u64::MAX / 60 {
                self.break_short = 60 * minutes;
            }
        }
        if let Some(minutes) = break_long {
            if 1 <= minutes && minutes <= u64::MAX / 60 {
                self.break_long = 60 * minutes;
            }
        }
    }
}

/// What a stored duration becomes when a minute count may have been supplied:
/// accepted values replace it with their second count, everything else leaves
/// it as it was.
pub open spec fn configured_duration(previous: u64, minutes: Option<u64>) -> u64 {
    match minutes {
        Some(m) => if 1 <= m && m <= u64::MAX as int / 60 {
            (60 * m) as u64
        } else {
            previous
        },
        None => previous,
    }
}

impl Default for State {
    /// The documented default record.
    fn default() -> (r: State)
        ensures
            r == State::default_spec(),
            r.wf(),
    {
        State {
            work_duration: DEFAULT_WORK_SECS,
            break_short: DEFAULT_BREAK_SHORT_SECS,
            break_long: DEFAULT_BREAK_LONG_SECS,
            work_blocks: DEFAULT_WORK_BLOCKS,
            running: false,
            start: 0,
        }
    }
}

} // verus!
