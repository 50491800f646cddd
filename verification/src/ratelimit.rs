//! Rate limiting: an exponential backoff schedule and a leaky-bucket permit counter.
use vstd::prelude::*;

verus! {

/// An exponential backoff schedule. Delays are held in milliseconds.
pub struct Backoff {
    /// The delay that the next call of [`Backoff::next`] hands out.
    pub delay: u64,
    /// The largest delay that the schedule grows to.
    pub max_delay: u64,
    /// The factor by which the delay grows after each step.
    pub factor: u32,
}

/// The delay, capped at `max_delay`.
pub open spec fn capped(delay: u64, max_delay: u64) -> u64 {
    if delay <= max_delay {
        delay
    } else {
        max_delay
    }
}

/// The smaller of `delay * factor` and `max_delay`.
pub open spec fn grown(delay: u64, max_delay: u64, factor: u32) -> u64 {
    if delay * factor <= max_delay {
        (delay * factor) as u64
    } else {
        max_delay
    }
}

/// The delay that a schedule hands out at its `step`-th call, counted from zero: the
/// initial delay at first, then the delay before times the factor, and never more than
/// the maximum delay.
pub open spec fn nth_delay(initial_delay: u64, max_delay: u64, factor: u32, step: nat) -> u64
    decreases step,
{
    if step == 0 {
        capped(initial_delay, max_delay)
    } else {
        grown(nth_delay(initial_delay, max_delay, factor, (step - 1) as nat), max_delay, factor)
    }
}

impl Backoff {
    /// Start a schedule at `initial_delay`, or at `max_delay` where that is less.
    pub fn new(initial_delay: u64, max_delay: u64, factor: u32) -> (backoff: Self)
        ensures
            backoff.delay == capped(initial_delay, max_delay),
            backoff.max_delay == max_delay,
            backoff.factor == factor,
    {
        let delay: u64 = if initial_delay <= max_delay {
            initial_delay
        } else {
            max_delay
        };
        Self { delay, max_delay, factor }
    }

    /// Hand out the current delay and grow the stored one by the factor. No delay is more
    /// than `max_delay`, neither the one handed out nor the one stored. The schedule
    /// never ends.
    pub fn next(&mut self) -> (current: Option<u64>)
        ensures
            current == Some(capped(old(self).delay, old(self).max_delay)),
            final(self).delay == grown(
                capped(old(self).delay, old(self).max_delay),
                old(self).max_delay,
                old(self).factor,
            ),
            final(self).delay <= old(self).max_delay,
            final(self).max_delay == old(self).max_delay,
            final(self).factor == old(self).factor,
    {
        let current: u64 = if self.delay <= self.max_delay {
            self.delay
        } else {
            self.max_delay
        };
        assert((current as u128) * (self.factor as u128) <= 0xffff_ffff_ffff_ffff * 0xffff_ffff)
            by (nonlinear_arith)
            requires
                current <= 0xffff_ffff_ffff_ffff,
                self.factor <= 0xffff_ffff,
        ;
        let product: u128 = (current as u128) * (self.factor as u128);
        if product <= self.max_delay as u128 {
            self.delay = product as u64;
        } else {
            self.delay = self.max_delay;
        }
        Some(current)
    }
}

/// Every delay of a schedule is capped at `max_delay`, the first one too, and while the
/// factor is at least one the delays never shrink.
pub proof fn lemma_backoff_schedule(initial_delay: u64, max_delay: u64, factor: u32, step: nat)
    ensures
        nth_delay(initial_delay, max_delay, factor, step) <= max_delay,
        factor >= 1 ==> nth_delay(initial_delay, max_delay, factor, step) <= nth_delay(
            initial_delay,
            max_delay,
            factor,
            step + 1,
        ),
    decreases step,
{
    if step > 0 {
        lemma_backoff_schedule(initial_delay, max_delay, factor, (step - 1) as nat);
    }
    let here = nth_delay(initial_delay, max_delay, factor, step);
    if factor >= 1 {
        assert(here * factor >= here) by (nonlinear_arith)
            requires
                factor >= 1,
                here >= 0,
        ;
    }
}

/// A schedule hands out the delays of [`nth_delay`] in turn: a schedule that stands at
/// one of them hands it out and stands at the next one afterwards.
pub proof fn lemma_backoff_steps(initial_delay: u64, max_delay: u64, factor: u32, step: nat)
    ensures
        capped(nth_delay(initial_delay, max_delay, factor, step), max_delay) == nth_delay(
            initial_delay,
            max_delay,
            factor,
            step,
        ),
        grown(
            capped(nth_delay(initial_delay, max_delay, factor, step), max_delay),
            max_delay,
            factor,
        ) == nth_delay(initial_delay, max_delay, factor, step + 1),
{
    lemma_backoff_schedule(initial_delay, max_delay, factor, step);
}

/// A leaky-bucket limiter: at most `capacity` permits are on hand, each grant takes one,
/// and each replenishment interval puts one back.
pub struct Ratelimit {
    available: usize,
    max_requests: usize,
}

/// What happens to a limiter: a caller asks for a permit, or an interval elapses.
pub enum Event {
    /// A caller asks for a permit.
    Request,
    /// A replenishment interval has elapsed.
    Tick,
}

impl Ratelimit {
    /// The permits on hand.
    pub closed spec fn permits(&self) -> nat {
        self.available as nat
    }

    /// The most permits that can be on hand.
    pub closed spec fn capacity(&self) -> nat {
        self.max_requests as nat
    }

    /// No more permits are on hand than the limiter was made for.
    pub open spec fn wf(&self) -> bool {
        self.permits() <= self.capacity()
    }

    /// The limiter after one request, and whether the request was granted.
    pub closed spec fn after_request(self) -> (Self, bool) {
        if self.available > 0 {
            (Ratelimit { available: (self.available - 1) as usize, ..self }, true)
        } else {
            (self, false)
        }
    }

    /// The limiter after one replenishment interval.
    pub closed spec fn after_tick(self) -> Self {
        if self.available < self.max_requests {
            Ratelimit { available: (self.available + 1) as usize, ..self }
        } else {
            self
        }
    }

    /// The limiter after a run of events.
    pub open spec fn after(self, events: Seq<Event>) -> Self
        decreases events.len(),
    {
        if events.len() == 0 {
            self
        } else {
            let before = self.after(events.drop_last());
            match events.last() {
                Event::Request => before.after_request().0,
                Event::Tick => before.after_tick(),
            }
        }
    }

    /// How many requests of a run of events are granted.
    pub open spec fn granted(self, events: Seq<Event>) -> nat
        decreases events.len(),
    {
        if events.len() == 0 {
            0
        } else {
            let before = self.after(events.drop_last());
            let earlier = self.granted(events.drop_last());
            match events.last() {
                Event::Request => if before.after_request().1 {
                    earlier + 1
                } else {
                    earlier
                },
                Event::Tick => earlier,
            }
        }
    }

    /// A limiter with all of its `max_requests` permits on hand.
    pub fn new(max_requests: usize) -> (limit: Self)
        ensures
            limit.wf(),
            limit.permits() == max_requests,
            limit.capacity() == max_requests,
    {
        Self { available: max_requests, max_requests }
    }

    /// The permits on hand.
    pub fn available_permits(&self) -> (permits: usize)
        ensures
            permits == self.permits(),
    {
        self.available
    }

    /// Take a permit if one is on hand. On `false` the caller has to wait for the next
    /// replenishment and ask again.
    pub fn try_acquire(&mut self) -> (granted: bool)
        ensures
            granted == (old(self).permits() > 0),
            granted ==> final(self).permits() == old(self).permits() - 1,
            !granted ==> final(self).permits() == old(self).permits(),
            final(self).capacity() == old(self).capacity(),
            (*final(self), granted) == old(self).after_request(),
            old(self).wf() ==> final(self).wf(),
    {
        if self.available > 0 {
            self.available = self.available - 1;
            true
        } else {
            false
        }
    }

    /// Put one permit back unless the bucket is full.
    pub fn replenish(&mut self)
        ensures
            final(self).permits() == if old(self).permits() < old(self).capacity() {
                old(self).permits() + 1
            } else {
                old(self).permits()
            },
            final(self).capacity() == old(self).capacity(),
            *final(self) == old(self).after_tick(),
            old(self).wf() ==> final(self).wf(),
    {
        if self.available < self.max_requests {
            self.available = self.available + 1;
        }
    }
}

/// How many events of a run are replenishments.
pub open spec fn ticks(events: Seq<Event>) -> nat
    decreases events.len(),
{
    if events.len() == 0 {
        0
    } else {
        ticks(events.drop_last()) + if events.last() is Tick {
            1nat
        } else {
            0nat
        }
    }
}

/// Whatever happens to a limiter, it never holds more permits than its capacity, and
/// the grants of a run are covered by the permits it started with and one for each
/// replenishment in the run.
pub proof fn lemma_grants_bounded(limit: Ratelimit, events: Seq<Event>)
    requires
        limit.wf(),
    ensures
        limit.after(events).wf(),
        limit.after(events).capacity() == limit.capacity(),
        limit.granted(events) + limit.after(events).permits() <= limit.permits() + ticks(events),
    decreases events.len(),
{
    if events.len() > 0 {
        lemma_grants_bounded(limit, events.drop_last());
    }
}

/// Within one replenishment interval a limiter of capacity N grants at most N permits.
pub proof fn lemma_grants_within_interval(limit: Ratelimit, events: Seq<Event>)
    requires
        limit.wf(),
        ticks(events) == 0,
    ensures
        limit.granted(events) <= limit.capacity(),
{
    lemma_grants_bounded(limit, events);
}

/// A request that finds no permit on hand is refused, and it is granted once a
/// replenishment has come in between.
pub proof fn lemma_blocked_until_replenished(limit: Ratelimit)
    requires
        limit.wf(),
        limit.permits() == 0,
        limit.capacity() > 0,
    ensures
        !limit.after_request().1,
        limit.after_request().0 == limit,
        limit.after_tick().after_request().1,
{
}

} // verus!
