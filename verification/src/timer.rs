//! The publication timer, which counts sample time in whole steps.

use vstd::prelude::*;

verus! {

/// How often per second a publication is attempted.
pub const UPDATES_PER_SECOND: u64 = 10;

/// The time that `frames` sample frames last, in steps. A step is the
/// `UPDATES_PER_SECOND`-th part of one frame's duration, so that the interval
/// between two publications lasts as many steps as a second has frames.
pub open spec fn steps(frames: u32) -> int {
    frames * UPDATES_PER_SECOND
}

/// A countdown `t` after the interval was added to it until it is positive.
pub open spec fn catch_up(t: int, interval: int) -> int
    decreases
        (if t <= 0 {
            1 - t
        } else {
            0
        }),
{
    if t > 0 || interval <= 0 {
        t
    } else {
        catch_up(t + interval, interval)
    }
}

/// Whether a buffer of `frames` frames uses up a countdown of `remaining`
/// steps.
pub open spec fn is_due(remaining: int, frames: u32) -> bool {
    remaining - steps(frames) <= 0
}

/// The countdown after a buffer of `frames` frames.
pub open spec fn remaining_after(remaining: int, interval: int, frames: u32) -> int {
    catch_up(remaining - steps(frames), interval)
}

/// The countdown to the next publication. It runs in sample time: each buffer
/// takes its own duration off, whatever its size.
pub struct PublicationTimer {
    rate: u64,
    remaining: u64,
}

impl PublicationTimer {
    /// The steps between two publications: the sample rate.
    pub closed spec fn interval(&self) -> int {
        self.rate as int
    }

    /// The steps left until the next publication.
    pub closed spec fn remaining(&self) -> int {
        self.remaining as int
    }

    /// The countdown is positive and at most one interval.
    pub open spec fn wf(&self) -> bool {
        0 < self.remaining() <= self.interval()
    }

    /// A timer for `sample_rate` frames per second, one full interval before
    /// its first publication.
    pub fn new(sample_rate: usize) -> (timer: Self)
        requires
            sample_rate > 0,
        ensures
            timer.wf(),
            timer.interval() == sample_rate,
            timer.remaining() == sample_rate,
    {
        PublicationTimer { rate: sample_rate as u64, remaining: sample_rate as u64 }
    }

    /// The steps between two publications.
    pub fn steps_per_interval(&self) -> (steps: u64)
        ensures
            steps == self.interval(),
    {
        self.rate
    }

    /// The steps left until the next publication.
    pub fn steps_left(&self) -> (steps: u64)
        ensures
            steps == self.remaining(),
    {
        self.remaining
    }

    /// Takes the duration of `frames` frames off the countdown and says whether
    /// a publication is due. If one is, the interval is added until the
    /// countdown is positive again.
    pub fn advance(&mut self, frames: u32) -> (due: bool)
        requires
            old(self).wf(),
        ensures
            final(self).wf(),
            final(self).interval() == old(self).interval(),
            due == is_due(old(self).remaining(), frames),
            final(self).remaining() == remaining_after(
                old(self).remaining(),
                old(self).interval(),
                frames,
            ),
    {
        let elapsed: u64 = (frames as u64) * UPDATES_PER_SECOND;
        if elapsed < self.remaining {
            self.remaining = self.remaining - elapsed;
            false
        } else {
            let deficit: u64 = elapsed - self.remaining;
            let rest: u64 = deficit % self.rate;
            proof {
                lemma_catch_up_closed_form(-(deficit as int), self.rate as int);
            }
            self.remaining = self.rate - rest;
            true
        }
    }
}

/// Adding the interval until the countdown is positive leaves it in the
/// interval's range, a whole number of intervals above where it was.
pub proof fn lemma_catch_up_closed_form(t: int, interval: int)
    requires
        t <= 0,
        interval > 0,
    ensures
        catch_up(t, interval) == interval - ((-t) % interval),
        0 < catch_up(t, interval) <= interval,
        (catch_up(t, interval) - t) % interval == 0,
    decreases -t,
{
    if t + interval > 0 {
        assert(catch_up(t + interval, interval) == t + interval);
        assert((-t) % interval == -t) by (nonlinear_arith)
            requires
                0 <= -t < interval,
        ;
        assert((interval) % interval == 0) by (nonlinear_arith)
            requires
                interval > 0,
        ;
    } else {
        lemma_catch_up_closed_form(t + interval, interval);
        assert((-t - interval) % interval == (-t) % interval) by (nonlinear_arith)
            requires
                interval > 0,
        ;
        let r = catch_up(t, interval);
        assert((r - t) % interval == 0) by (nonlinear_arith)
            requires
                interval > 0,
                (r - (t + interval)) % interval == 0,
        ;
    }
}

/// A countdown that is still positive is left as it is.
pub proof fn lemma_catch_up_positive(t: int, interval: int)
    requires
        t > 0,
    ensures
        catch_up(t, interval) == t,
{
}

/// How many of `buffers`, processed in turn, find a publication due.
pub open spec fn publications(remaining: int, interval: int, buffers: Seq<u32>) -> nat
    decreases buffers.len(),
{
    if buffers.len() == 0 {
        0
    } else {
        let now: nat = if is_due(remaining, buffers[0]) {
            1
        } else {
            0
        };
        now + publications(
            remaining_after(remaining, interval, buffers[0]),
            interval,
            buffers.drop_first(),
        )
    }
}

/// The countdown after all of `buffers` were processed in turn.
pub open spec fn remaining_at_end(remaining: int, interval: int, buffers: Seq<u32>) -> int
    decreases buffers.len(),
{
    if buffers.len() == 0 {
        remaining
    } else {
        remaining_at_end(
            remaining_after(remaining, interval, buffers[0]),
            interval,
            buffers.drop_first(),
        )
    }
}

/// The duration of all of `buffers`, in steps.
pub open spec fn total_steps(buffers: Seq<u32>) -> int
    decreases buffers.len(),
{
    if buffers.len() == 0 {
        0
    } else {
        steps(buffers[0]) + total_steps(buffers.drop_first())
    }
}

/// Cadence follows sample time, not the number of buffers: while no buffer
/// lasts longer than the interval, the publications so far and the part of
/// the running interval that has passed add up to the time that has passed.
pub proof fn lemma_cadence_follows_time(remaining: int, interval: int, buffers: Seq<u32>)
    requires
        0 < remaining <= interval,
        forall|i: int| 0 <= i < buffers.len() ==> steps(#[trigger] buffers[i]) <= interval,
    ensures
        0 < remaining_at_end(remaining, interval, buffers) <= interval,
        publications(remaining, interval, buffers) * interval + (interval - remaining_at_end(
            remaining,
            interval,
            buffers,
        )) == (interval - remaining) + total_steps(buffers),
    decreases buffers.len(),
{
    if buffers.len() > 0 {
        let first = buffers[0];
        let rest = buffers.drop_first();
        let next = remaining_after(remaining, interval, first);
        let t = remaining - steps(first);
        if t > 0 {
            lemma_catch_up_positive(t, interval);
        } else {
            assert(t + interval > 0);
            assert(catch_up(t + interval, interval) == t + interval);
        }
        assert forall|i: int| 0 <= i < rest.len() implies steps(#[trigger] rest[i]) <= interval by {
            assert(rest[i] == buffers[i + 1]);
        }
        lemma_cadence_follows_time(next, interval, rest);
        let later = publications(next, interval, rest);
        let now: nat = if is_due(remaining, first) {
            1
        } else {
            0
        };
        assert(publications(remaining, interval, buffers) == now + later);
        assert(remaining_at_end(remaining, interval, buffers) == remaining_at_end(
            next,
            interval,
            rest,
        ));
        assert(total_steps(buffers) == steps(first) + total_steps(rest));
        assert((now + later) * interval == now * interval + later * interval)
            by (nonlinear_arith);
        assert(now * interval == interval - remaining + steps(first) - (interval - next)) by {
            if now == 1 {
                assert(1 * interval == interval) by (nonlinear_arith);
            } else {
                assert(0 * interval == 0) by (nonlinear_arith);
            }
        }
    } else {
        assert(publications(remaining, interval, buffers) * interval == 0) by (nonlinear_arith)
            requires
                publications(remaining, interval, buffers) == 0,
        ;
    }
}

/// A timer that starts one full interval before its first publication has
/// attempted as many publications as whole intervals have passed.
pub proof fn lemma_publications_count_intervals(interval: int, buffers: Seq<u32>)
    requires
        interval > 0,
        forall|i: int| 0 <= i < buffers.len() ==> steps(#[trigger] buffers[i]) <= interval,
    ensures
        publications(interval, interval, buffers) == total_steps(buffers) / interval,
{
    lemma_cadence_follows_time(interval, interval, buffers);
    let count = publications(interval, interval, buffers) as int;
    let passed = interval - remaining_at_end(interval, interval, buffers);
    let total = total_steps(buffers);
    assert(total / interval == count) by (nonlinear_arith)
        requires
            interval > 0,
            0 <= passed < interval,
            count * interval + passed == total,
    ;
}

/// Buffers that each last at least one interval find a publication due every
/// time: one attempt per buffer, however long the buffer.
pub proof fn lemma_long_buffers_always_due(remaining: int, interval: int, buffers: Seq<u32>)
    requires
        0 < remaining <= interval,
        forall|i: int| 0 <= i < buffers.len() ==> steps(#[trigger] buffers[i]) >= interval,
    ensures
        publications(remaining, interval, buffers) == buffers.len(),
        0 < remaining_at_end(remaining, interval, buffers) <= interval,
    decreases buffers.len(),
{
    if buffers.len() > 0 {
        let first = buffers[0];
        let rest = buffers.drop_first();
        let t = remaining - steps(first);
        lemma_catch_up_closed_form(t, interval);
        assert forall|i: int| 0 <= i < rest.len() implies steps(#[trigger] rest[i]) >= interval by {
            assert(rest[i] == buffers[i + 1]);
        }
        lemma_long_buffers_always_due(remaining_after(remaining, interval, first), interval, rest);
    }
}

} // verus!
