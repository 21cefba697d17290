use vstd::prelude::*;

verus! {

/// Grace period, in microseconds, between a sleeping body's recorded time and
/// the moment it is frozen.
pub const SLEEP_DELAY_US: u64 = 350_000;

/// Deferred-sleep state of a box body. Times are simulation time in whole
/// microseconds.
#[derive(Debug, Clone, Copy, PartialEq, Eq, Structural)]
pub struct SleepTimer {
    /// Whether the body is due to be frozen once its grace period is over.
    pub sleep: bool,
    /// When the grace period started.
    pub sleep_time: u64,
    /// Whether the body has been frozen (made static); it stays so.
    pub frozen: bool,
}

/// The grace period of a body marked for sleep and started at `sleep_time`
/// is over at `curr_time`.
pub open spec fn sleep_due(sleep: bool, sleep_time: u64, curr_time: u64) -> bool {
    sleep && curr_time - sleep_time > SLEEP_DELAY_US
}

impl SleepTimer {
    /// A timer that is not frozen yet.
    pub fn new(sleep: bool, sleep_time: u64) -> (r: Self)
        ensures
            r.sleep == sleep,
            r.sleep_time == sleep_time,
            !r.frozen,
    {
        SleepTimer { sleep, sleep_time, frozen: false }
    }

    pub fn set_sleep(&mut self, b_sleep: bool)
        ensures
            final(self).sleep == b_sleep,
            final(self).sleep_time == old(self).sleep_time,
            final(self).frozen == old(self).frozen,
    {
        self.sleep = b_sleep;
    }

    /// Freezes the body once more than the grace period has passed since its
    /// recorded time; a frozen body stays frozen.
    pub fn ready_sleep(&mut self, curr_time: u64)
        ensures
            final(self).frozen == (old(self).frozen || sleep_due(
                old(self).sleep,
                old(self).sleep_time,
                curr_time,
            )),
            final(self).sleep == old(self).sleep,
            final(self).sleep_time == old(self).sleep_time,
    {
        if self.sleep && curr_time > self.sleep_time && curr_time - self.sleep_time > SLEEP_DELAY_US {
            self.frozen = true;
        }
    }
}

} // verus!
