//! Driving the sync-status poll loop.
//!
//! The poller decides, from one fetched status snapshot, what line to print
//! and whether to stop or to sleep and fetch again. The caller owns the
//! transport and the clock: it fetches the status that `tick` consumes and
//! performs the sleep that `SleepThenRepeat` asks for.

use vstd::prelude::*;

use crate::request::DeploymentStatus;
use crate::text::{spec_status_line, status_line};

verus! {

/// What the caller must do after one tick.
#[derive(Clone, Copy, PartialEq, Eq, Structural, Debug)]
pub enum PollControl {
    /// The poll is over; return to the caller.
    Stop,
    /// Sleep this many seconds, fetch the status again, and tick again.
    SleepThenRepeat { seconds: u64 },
}

/// A non-rolling poll stops after its one tick; a rolling poll always asks
/// for another round — it has no internal stop condition.
pub open spec fn spec_poll_control(rolling: bool, interval: u64) -> PollControl {
    if rolling {
        PollControl::SleepThenRepeat { seconds: interval }
    } else {
        PollControl::Stop
    }
}

/// Emits one progress line per fetched status snapshot, counting ticks from
/// one, and tells the caller whether to keep polling.
pub struct StatusPoller {
    rolling: bool,
    interval: u64,
    ticks: u64,
}

impl StatusPoller {
    /// Whether this poller repeats until externally stopped.
    pub closed spec fn spec_rolling(&self) -> bool {
        self.rolling
    }

    /// The sleep, in seconds, between two rolling ticks.
    pub closed spec fn spec_interval(&self) -> u64 {
        self.interval
    }

    /// How many ticks have run so far.
    pub closed spec fn spec_ticks(&self) -> u64 {
        self.ticks
    }

    /// A poller that has not ticked yet.
    pub fn new(rolling: bool, interval: u64) -> (p: StatusPoller)
        ensures
            p.spec_rolling() == rolling,
            p.spec_interval() == interval,
            p.spec_ticks() == 0,
    {
        StatusPoller { rolling, interval, ticks: 0 }
    }

    /// How many ticks have run so far.
    pub fn ticks(&self) -> (t: u64)
        ensures
            t == self.spec_ticks(),
    {
        self.ticks
    }

    /// One poll tick: renders the progress line for `status` under the next
    /// tick number, and decides whether the loop goes on. A non-rolling
    /// poller stops right after this first line; a rolling poller asks for a
    /// sleep and another fetch, every time.
    pub fn tick(&mut self, status: &DeploymentStatus) -> (r: (String, PollControl))
        requires
            old(self).spec_ticks() < u64::MAX,
        ensures
            final(self).spec_rolling() == old(self).spec_rolling(),
            final(self).spec_interval() == old(self).spec_interval(),
            final(self).spec_ticks() == old(self).spec_ticks() + 1,
            r.0@ == spec_status_line(
                status.total_entities as int,
                status.target_block as int,
                status.processing_block as int,
                old(self).spec_rolling(),
                old(self).spec_ticks() + 1,
            ),
            r.1 == spec_poll_control(old(self).spec_rolling(), old(self).spec_interval()),
    {
        self.ticks = self.ticks + 1;
        let line = status_line(
            status.total_entities,
            status.target_block,
            status.processing_block,
            self.rolling,
            self.ticks,
        );
        let control = if self.rolling {
            PollControl::SleepThenRepeat { seconds: self.interval }
        } else {
            PollControl::Stop
        };
        (line, control)
    }
}

/// Law: a non-rolling poll reaches its terminal state after exactly one
/// tick — the control after any tick is `Stop`, so it never sleeps.
pub proof fn lemma_non_rolling_stops_after_one_tick(interval: u64)
    ensures
        spec_poll_control(false, interval) == PollControl::Stop,
{
}

/// Law: a rolling poll never stops of itself — the control after every tick
/// asks for a sleep of the configured interval and another fetch.
pub proof fn lemma_rolling_never_stops(interval: u64)
    ensures
        spec_poll_control(true, interval) == (PollControl::SleepThenRepeat { seconds: interval }),
{
}

} // verus!
