//! The fixed-interval tick schedule. Deadlines lie one interval apart on a
//! grid that never drifts. After a late wakeup the deadlines that were
//! missed are dropped, not made up for.

use vstd::prelude::*;

verus! {

/// The schedule's memory. Instants and the interval are counted in one unit
/// of the host's choice, from an origin of the host's choice.
#[derive(Clone, Copy, Debug, PartialEq, Eq, Structural)]
pub struct TickSchedule {
    /// The instant at which the next evaluation is due.
    pub next_deadline: u64,
    /// The distance between two deadlines.
    pub interval: u64,
}

/// The first deadline of the grid through `deadline` that lies after `now`:
/// `deadline` itself if it has not come yet, else the next grid point after
/// `now`.
pub open spec fn deadline_after(deadline: int, interval: int, now: int) -> int {
    if deadline > now {
        deadline
    } else {
        deadline + ((now - deadline) / interval + 1) * interval
    }
}

/// A value that lies at least `steps` whole intervals and less than one
/// more above zero holds exactly `steps` intervals.
proof fn lemma_whole_intervals(span: int, interval: int, steps: int)
    requires
        interval > 0,
        steps * interval <= span < (steps + 1) * interval,
    ensures
        span / interval == steps,
{
    assert((steps + 1) * interval == steps * interval + interval) by (nonlinear_arith);
    vstd::arithmetic::div_mod::lemma_fundamental_div_mod_converse(
        span,
        interval,
        steps,
        span - steps * interval,
    );
}

impl TickSchedule {
    /// A schedule whose first evaluation is due at once.
    pub fn new(now: u64, interval: u64) -> (schedule: TickSchedule)
        ensures
            schedule == (TickSchedule { next_deadline: now, interval }),
    {
        TickSchedule { next_deadline: now, interval }
    }

    /// Called at `now`, after an evaluation: moves the deadline forward by
    /// whole intervals until it lies after `now`, and returns how long to
    /// sleep until then. However late `now` is, the new deadline is at most
    /// one interval away, so a stall is followed by one evaluation, not by a
    /// burst.
    pub fn advance(&mut self, now: u64) -> (sleep_for: u64)
        requires
            old(self).interval > 0,
            now + old(self).interval <= u64::MAX,
        ensures
            final(self).interval == old(self).interval,
            final(self).next_deadline == deadline_after(
                old(self).next_deadline as int,
                old(self).interval as int,
                now as int,
            ),
            sleep_for == final(self).next_deadline - now,
            0 < sleep_for,
            old(self).next_deadline <= now ==> sleep_for <= old(self).interval,
    {
        let ghost first = self.next_deadline as int;
        let ghost step = self.interval as int;
        let ghost mut skipped: int = 0;
        let interval: u64 = self.interval;
        let mut next: u64 = self.next_deadline;
        while next <= now
            invariant
                interval == step,
                step > 0,
                now + step <= u64::MAX,
                skipped >= 0,
                next == first + skipped * step,
                skipped > 0 ==> next - step <= now,
            decreases now + step - next,
        {
            proof {
                assert((skipped + 1) * step == skipped * step + step) by (nonlinear_arith);
                skipped = skipped + 1;
            }
            next += interval;
        }
        self.next_deadline = next;
        proof {
            if skipped > 0 {
                assert(((skipped - 1) + 1) * step == skipped * step);
                assert((skipped - 1) * step == skipped * step - step) by (nonlinear_arith);
                lemma_whole_intervals(now - first, step, skipped - 1);
            } else {
                assert(0 * step == 0);
            }
        }
        self.next_deadline - now
    }
}

/// After a wakeup at `now`, however late, no deadline is left behind: the new
/// deadline lies after `now`, a second look at the same instant moves
/// nothing, and a deadline that had come is followed by one at most one
/// interval after `now`. The new deadline lies on the old grid.
pub proof fn lemma_stall_leaves_no_backlog(deadline: int, interval: int, now: int)
    requires
        interval > 0,
    ensures
        deadline_after(deadline, interval, now) > now,
        deadline <= now ==> deadline_after(deadline, interval, now) <= now + interval,
        deadline_after(deadline_after(deadline, interval, now), interval, now) == deadline_after(
            deadline,
            interval,
            now,
        ),
        (deadline_after(deadline, interval, now) - deadline) % interval == 0,
        deadline_after(deadline, interval, now) >= deadline,
{
    if deadline <= now {
        let span = now - deadline;
        let q = span / interval;
        vstd::arithmetic::div_mod::lemma_fundamental_div_mod(span, interval);
        vstd::arithmetic::div_mod::lemma_mod_bound(span, interval);
        vstd::arithmetic::div_mod::lemma_div_pos_is_pos(span, interval);
        assert((q + 1) * interval == interval * q + interval) by (nonlinear_arith);
        vstd::arithmetic::div_mod::lemma_mod_multiples_basic(q + 1, interval);
    } else {
        assert(0int % interval == 0) by (nonlinear_arith)
            requires
                interval > 0,
        ;
    }
}

} // verus!
