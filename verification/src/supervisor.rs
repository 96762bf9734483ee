//! The main loop's bookkeeping: whether the bot may run, and when to report
//! memory statistics.

use vstd::prelude::*;

verus! {

/// The main loop reports statistics once every this many rounds.
pub const STATS_EVERY: u32 = 20;

/// Times the LED blinks at start-up.
pub const STARTUP_BLINKS: u32 = 3;

/// One round of the statistics counter: the counter afterwards, and whether
/// this round reports.
pub open spec fn tick_step(counter: u32) -> (u32, bool) {
    if counter + 1 >= STATS_EVERY {
        (0, true)
    } else {
        ((counter + 1) as u32, false)
    }
}

/// The state of the main loop.
pub struct Supervisor {
    bot_active: bool,
    loop_counter: u32,
}

impl Supervisor {
    #[verifier::type_invariant]
    spec fn inv(self) -> bool {
        self.loop_counter < STATS_EVERY
    }

    /// Whether the bot may talk to Discord.
    pub closed spec fn active(self) -> bool {
        self.bot_active
    }

    /// Rounds since statistics were last reported.
    pub closed spec fn counter(self) -> u32 {
        self.loop_counter
    }

    /// The state at start-up: bot paused, counter at zero.
    pub fn new() -> (r: Supervisor)
        ensures
            !r.active(),
            r.counter() == 0,
    {
        Supervisor { bot_active: false, loop_counter: 0 }
    }

    /// Whether the bot may talk to Discord.
    pub fn is_bot_active(&self) -> (r: bool)
        ensures
            r == self.active(),
    {
        self.bot_active
    }

    /// A (re)connection starts: the bot pauses.
    pub fn connect_started(&mut self)
        ensures
            !final(self).active(),
            final(self).counter() == old(self).counter(),
    {
        proof {
            use_type_invariant(&*self);
        }
        self.bot_active = false;
    }

    /// A connection attempt ended: the bot resumes when it succeeded and is
    /// left as it was otherwise.
    pub fn connect_finished(&mut self, ok: bool)
        ensures
            final(self).active() == (ok || old(self).active()),
            final(self).counter() == old(self).counter(),
    {
        proof {
            use_type_invariant(&*self);
        }
        if ok {
            self.bot_active = true;
        }
    }

    /// Ends one round of the main loop; returns whether this round reports
    /// statistics.
    pub fn tick(&mut self) -> (report: bool)
        ensures
            (final(self).counter(), report) == tick_step(old(self).counter()),
            final(self).counter() < STATS_EVERY,
            final(self).active() == old(self).active(),
    {
        proof {
            use_type_invariant(&*self);
        }
        let next = self.loop_counter + 1;
        if next >= STATS_EVERY {
            self.loop_counter = 0;
            true
        } else {
            self.loop_counter = next;
            false
        }
    }
}

/// Counting rounds from a fresh start, the counter after `k` rounds is
/// `k % STATS_EVERY`, and round `k + 1` reports exactly when `k + 1` is a
/// multiple of `STATS_EVERY`.
pub proof fn stats_every_twentieth_round(k: nat)
    ensures
        tick_step((k % 20) as u32) == (((k + 1) % 20) as u32, (k + 1) % 20 == 0),
{
}

} // verus!
