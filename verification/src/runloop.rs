//! The fixed-interval, non-drifting schedule of the run loop.
//!
//! Instants are nanoseconds of the monotonic clock (a duration since an
//! unspecified boot-time epoch; never compared to wall-clock time).  The
//! surrounding process runs the loop: it reads the clock, performs each
//! tick, asks the schedule for the next deadline and sleeps until it with an
//! absolute sleep.  The deadline arithmetic — advance by exactly one
//! interval, or reset to now after an overrun — is decided and verified
//! here.

use vstd::prelude::*;

verus! {

/// What one tick asks of the loop: go on at the next deadline, or end the
/// loop.
#[derive(Clone, Copy, Debug, PartialEq, Eq, Structural)]
pub enum IterationOutcome {
    Conclude,
    KeepGoing,
}

/// What the loop must do before the next tick.
#[derive(Clone, Copy, Debug, PartialEq, Eq, Structural)]
pub enum ScheduleAction {
    /// Sleep until the carried deadline with an absolute monotonic sleep.
    SleepUntil(u64),
    /// The tick overran its slot by the carried amount: log a warning and
    /// start the next tick immediately.
    StartImmediately(u64),
}

/// The deadline after one tick: one interval past the previous deadline
/// under nominal load, or the present instant after an overrun — the
/// schedule never runs catch-up ticks back to back.
pub open spec fn spec_schedule_step(deadline: int, interval: int, now: int) -> int {
    if now > deadline + interval {
        now
    } else {
        deadline + interval
    }
}

/// The deadline after a run of ticks whose end instants were `nows`.
pub open spec fn spec_schedule_run(deadline: int, interval: int, nows: Seq<int>) -> int
    decreases nows.len(),
{
    if nows.len() == 0 {
        deadline
    } else {
        spec_schedule_run(
            spec_schedule_step(deadline, interval, nows[0]),
            interval,
            nows.drop_first(),
        )
    }
}

/// Zero drift: across any run of ticks none of which overruns its slot, the
/// deadline advances by exactly one interval per tick.
pub proof fn lemma_schedule_non_drifting(deadline: int, interval: int, nows: Seq<int>)
    requires
        0 <= interval,
        forall|i: int| 0 <= i < nows.len() ==> #[trigger] nows[i] <= deadline + (i + 1) * interval,
    ensures
        spec_schedule_run(deadline, interval, nows) == deadline + nows.len() * interval,
    decreases nows.len(),
{
    if nows.len() == 0 {
        assert(deadline + 0 * interval == deadline) by (nonlinear_arith);
    } else {
        assert(nows[0] <= deadline + 1 * interval);
        assert(1 * interval == interval) by (nonlinear_arith);
        let advanced = deadline + interval;
        assert(spec_schedule_step(deadline, interval, nows[0]) == advanced);
        let rest = nows.drop_first();
        assert forall|i: int| 0 <= i < rest.len() implies #[trigger] rest[i] <= advanced + (i + 1)
            * interval by {
            assert(rest[i] == nows[i + 1]);
            assert(nows[i + 1] <= deadline + (i + 2) * interval);
            assert((i + 2) * interval == (i + 1) * interval + interval) by (nonlinear_arith);
        }
        lemma_schedule_non_drifting(advanced, interval, rest);
        assert(advanced + rest.len() * interval == deadline + nows.len() * interval) by {
            assert(nows.len() * interval == rest.len() * interval + interval) by (
            nonlinear_arith)
                requires
                    nows.len() == rest.len() + 1,
            ;
        }
    }
}

/// The run-loop schedule: the deadline at which the next tick starts.
#[derive(Clone, Copy, Debug, PartialEq, Eq, Structural)]
pub struct RunloopSchedule {
    pub next_deadline: u64,
}

impl RunloopSchedule {
    /// A schedule starting now: the first tick runs immediately.
    pub fn new(now: u64) -> (schedule: RunloopSchedule)
        ensures
            schedule.next_deadline == now,
    {
        RunloopSchedule { next_deadline: now }
    }

    /// Account for one finished tick, which ended at `now`.  Under nominal
    /// load the deadline advances by exactly `interval` and the loop sleeps
    /// until it; after an overrun the deadline is reset to `now` — catching
    /// up with back-to-back ticks is deliberately not attempted — and the
    /// next tick starts immediately.
    pub fn advance(&mut self, now: u64, interval: u64) -> (action: ScheduleAction)
        requires
            old(self).next_deadline + interval <= u64::MAX,
        ensures
            final(self).next_deadline == spec_schedule_step(
                old(self).next_deadline as int,
                interval as int,
                now as int,
            ),
            now > old(self).next_deadline + interval ==> action == ScheduleAction::StartImmediately(
                (now - (old(self).next_deadline + interval)) as u64,
            ),
            now <= old(self).next_deadline + interval ==> action == ScheduleAction::SleepUntil(
                (old(self).next_deadline + interval) as u64,
            ),
    {
        let target = self.next_deadline + interval;
        if now > target {
            self.next_deadline = now;
            ScheduleAction::StartImmediately(now - target)
        } else {
            self.next_deadline = target;
            ScheduleAction::SleepUntil(target)
        }
    }
}

} // verus!
