//! A token bucket that admits requests against a bounded, replenishing
//! supply.
//!
//! The bucket holds at most `capacity` units. Taking succeeds only while
//! enough units are there; every `interval` of time adds `refill_rate` units,
//! up to the capacity. Time is a number of milliseconds that the caller reads
//! from its clock and hands in.

use vstd::arithmetic::div_mod::{lemma_fundamental_div_mod, lemma_fundamental_div_mod_converse};
use vstd::arithmetic::mul::{lemma_mul_inequality, lemma_mul_is_distributive_add_other_way};
use vstd::prelude::*;

verus! {

/// The state of a bucket, as numbers.
pub struct Bucket {
    /// The most the bucket can hold.
    pub capacity: nat,
    /// What it holds now.
    pub available: nat,
    /// The units that one interval adds.
    pub refill_rate: nat,
    /// The length of an interval, in milliseconds.
    pub interval: nat,
    /// The time up to which refills have been counted.
    pub refilled_at: nat,
}

impl Bucket {
    /// What holds of every bucket: it never holds more than its capacity, and
    /// its capacity, refill rate and interval are positive.
    pub open spec fn valid(self) -> bool {
        &&& 0 < self.capacity
        &&& self.available <= self.capacity
        &&& 0 < self.refill_rate
        &&& 0 < self.interval
    }

    /// Whether `amount` units can be taken.
    pub open spec fn grants(self, amount: nat) -> bool {
        amount <= self.available
    }

    /// The bucket after an attempt to take `amount` units: they are gone if
    /// they were there, and nothing changes if they were not.
    pub open spec fn take(self, amount: nat) -> Bucket {
        if self.grants(amount) {
            Bucket { available: (self.available - amount) as nat, ..self }
        } else {
            self
        }
    }

    /// What the bucket holds once `units` have been offered to it: what
    /// does not fit is lost.
    pub open spec fn filled_by(self, units: nat) -> nat {
        if self.available + units <= self.capacity {
            self.available + units
        } else {
            self.capacity
        }
    }

    /// The bucket after the refill of `periods` whole intervals.
    pub open spec fn refill(self, periods: nat) -> Bucket {
        Bucket { available: self.filled_by(periods * self.refill_rate), ..self }
    }

    /// The whole intervals that have passed at time `now` and are not yet
    /// counted. A clock that reads earlier than the last count has none.
    pub open spec fn periods_due(self, now: nat) -> nat {
        if now >= self.refilled_at {
            (now - self.refilled_at) as nat / self.interval
        } else {
            0
        }
    }

    /// The bucket brought up to time `now`: the intervals that are due are
    /// refilled and counted, the rest of the time stays for the next call.
    pub open spec fn advance(self, now: nat) -> Bucket {
        let periods = self.periods_due(now);
        Bucket {
            available: self.filled_by(periods * self.refill_rate),
            refilled_at: self.refilled_at + periods * self.interval,
            ..self
        }
    }

    /// The bucket topped up to its capacity, which becomes `capacity` if one
    /// is given.
    pub open spec fn top_up(self, capacity: Option<nat>) -> Bucket {
        match capacity {
            Some(c) => Bucket { capacity: c, available: c, ..self },
            None => Bucket { available: self.capacity, ..self },
        }
    }
}

/// One thing that happens to a bucket.
pub enum Event {
    /// An attempt to take so many units.
    Acquire(nat),
    /// The tick of a timer: one interval's refill.
    Tick,
    /// A look at the clock, which reads so many milliseconds.
    Clock(nat),
}

impl Bucket {
    /// The bucket after `event`.
    pub open spec fn step(self, event: Event) -> Bucket {
        match event {
            Event::Acquire(amount) => self.take(amount),
            Event::Tick => self.refill(1),
            Event::Clock(now) => self.advance(now),
        }
    }

    /// The units that `event` takes out of this bucket: those of an attempt
    /// that succeeds.
    pub open spec fn deducted_by(self, event: Event) -> nat {
        match event {
            Event::Acquire(amount) => if self.grants(amount) {
                amount
            } else {
                0
            },
            _ => 0,
        }
    }

    /// The units that `event` offers to this bucket: those of the intervals
    /// that it refills, whether they fit or not.
    pub open spec fn offered_by(self, event: Event) -> nat {
        match event {
            Event::Acquire(_) => 0,
            Event::Tick => self.refill_rate,
            Event::Clock(now) => self.periods_due(now) * self.refill_rate,
        }
    }

    /// The units that `event` puts into this bucket: those it offers, as far
    /// as they fit.
    pub open spec fn granted_by(self, event: Event) -> nat {
        (self.filled_by(self.offered_by(event)) - self.available) as nat
    }

    /// The bucket after `events`, in their order.
    pub open spec fn run(self, events: Seq<Event>) -> Bucket
        decreases events.len(),
    {
        if events.len() == 0 {
            self
        } else {
            self.run(events.drop_last()).step(events.last())
        }
    }

    /// All the units that the attempts among `events` took out.
    pub open spec fn deducted(self, events: Seq<Event>) -> nat
        decreases events.len(),
    {
        if events.len() == 0 {
            0
        } else {
            self.deducted(events.drop_last()) + self.run(events.drop_last()).deducted_by(
                events.last(),
            )
        }
    }

    /// All the units that the bucket was granted: what it held at the start
    /// and what the refills among `events` put in.
    pub open spec fn granted(self, events: Seq<Event>) -> nat
        decreases events.len(),
    {
        if events.len() == 0 {
            self.available
        } else {
            self.granted(events.drop_last()) + self.run(events.drop_last()).granted_by(
                events.last(),
            )
        }
    }

    /// All the units that the bucket was offered: what it held at the start
    /// and what the refills among `events` would have put in had all of it
    /// fitted.
    pub open spec fn offered(self, events: Seq<Event>) -> nat
        decreases events.len(),
    {
        if events.len() == 0 {
            self.available
        } else {
            self.offered(events.drop_last()) + self.run(events.drop_last()).offered_by(
                events.last(),
            )
        }
    }
}

/// Whatever happens to a valid bucket, in whatever order, it stays valid, so
/// that what it holds is never below zero nor above its capacity. What the
/// attempts took out and what is left add up to what was granted, so the
/// deductions never exceed the grants, nor the grants what was offered.
pub proof fn law_history_balances(bucket: Bucket, events: Seq<Event>)
    requires
        bucket.valid(),
    ensures
        bucket.run(events).valid(),
        bucket.run(events).available <= bucket.run(events).capacity,
        bucket.run(events).capacity == bucket.capacity,
        bucket.deducted(events) + bucket.run(events).available == bucket.granted(events),
        bucket.deducted(events) <= bucket.granted(events),
        bucket.granted(events) <= bucket.offered(events),
    decreases events.len(),
{
    if events.len() > 0 {
        law_history_balances(bucket, events.drop_last());
    }
}

/// What two refills in a row leave in the bucket is what one refill of both
/// their units leaves.
pub proof fn lemma_fill_adds_up(bucket: Bucket, first: nat, second: nat)
    requires
        bucket.valid(),
    ensures
        (Bucket { available: bucket.filled_by(first), ..bucket }).filled_by(second)
            == bucket.filled_by(first + second),
{
}

/// The clock never grants an interval twice: to bring a bucket up to one time
/// and then to a later one leaves it as bringing it up to the later time at
/// once does. So a second look at the clock at the same time changes nothing.
pub proof fn law_clock_grants_once(bucket: Bucket, earlier: nat, later: nat)
    requires
        bucket.valid(),
        earlier <= later,
    ensures
        bucket.advance(earlier).advance(later) == bucket.advance(later),
        bucket.advance(later).advance(later) == bucket.advance(later),
{
    lemma_advance_composes(bucket, earlier, later);
    lemma_advance_composes(bucket, later, later);
}

proof fn lemma_advance_composes(bucket: Bucket, earlier: nat, later: nat)
    requires
        bucket.valid(),
        earlier <= later,
    ensures
        bucket.advance(earlier).advance(later) == bucket.advance(later),
{
    let first = bucket.periods_due(earlier);
    let middle = bucket.advance(earlier);
    let second = middle.periods_due(later);
    let whole = bucket.periods_due(later);
    let i = bucket.interval as int;
    if earlier >= bucket.refilled_at {
        let span = earlier - bucket.refilled_at;
        let long = later - bucket.refilled_at;
        lemma_fundamental_div_mod(span, i);
        lemma_fundamental_div_mod(long, i);
        assert(first * i <= span) by (nonlinear_arith)
            requires
                span == i * (span / i) + span % i,
                0 <= span % i,
                first == span / i,
        ;
        let rest = later - middle.refilled_at;
        assert(rest == long - first * i);
        lemma_fundamental_div_mod(rest, i);
        // long == (first + rest / i) * i + rest % i
        assert(long == i * (first + rest / i) + rest % i) by (nonlinear_arith)
            requires
                rest == long - first * i,
                rest == i * (rest / i) + rest % i,
        ;
        lemma_fundamental_div_mod_converse(long, i, first + rest / i, rest % i);
        assert(first + second == whole);
        lemma_mul_is_distributive_add_other_way(bucket.refill_rate as int, first as int, second as int);
        lemma_mul_is_distributive_add_other_way(i, first as int, second as int);
        lemma_fill_adds_up(bucket, first * bucket.refill_rate, second * bucket.refill_rate);
    } else {
        assert(first == 0);
        assert(first * bucket.refill_rate == 0) by (nonlinear_arith)
            requires
                first == 0,
        ;
        assert(first * bucket.interval == 0) by (nonlinear_arith)
            requires
                first == 0,
        ;
        assert(middle == bucket);
    }
}

/// A token bucket. Its state is the [`Bucket`] that `@` gives, which is
/// always valid.
#[derive(Clone, Copy, Debug)]
pub struct AdmissionController {
    capacity: u64,
    available: u64,
    refill_rate: u64,
    interval_ms: u64,
    refilled_at_ms: u64,
}

impl View for AdmissionController {
    type V = Bucket;

    closed spec fn view(&self) -> Bucket {
        Bucket {
            capacity: self.capacity as nat,
            available: self.available as nat,
            refill_rate: self.refill_rate as nat,
            interval: self.interval_ms as nat,
            refilled_at: self.refilled_at_ms as nat,
        }
    }
}

impl AdmissionController {
    #[verifier::type_invariant]
    spec fn sound(self) -> bool {
        self@.valid()
    }

    /// A full bucket of `capacity` units that gains `refill_rate` units every
    /// `interval_ms` milliseconds, counted from `now_ms`. There is none
    /// unless all three of capacity, rate and interval are positive.
    pub fn new(capacity: u64, refill_rate: u64, interval_ms: u64, now_ms: u64) -> (made: Option<
        AdmissionController,
    >)
        ensures
            made is Some <==> capacity > 0 && refill_rate > 0 && interval_ms > 0,
            made matches Some(bucket) ==> bucket@ == (Bucket {
                capacity: capacity as nat,
                available: capacity as nat,
                refill_rate: refill_rate as nat,
                interval: interval_ms as nat,
                refilled_at: now_ms as nat,
            }),
    {
        if capacity == 0 || refill_rate == 0 || interval_ms == 0 {
            None
        } else {
            Some(
                AdmissionController {
                    capacity,
                    available: capacity,
                    refill_rate,
                    interval_ms,
                    refilled_at_ms: now_ms,
                },
            )
        }
    }

    /// The most the bucket can hold.
    pub fn capacity(&self) -> (units: u64)
        ensures
            units == self@.capacity,
            units > 0,
    {
        proof {
            use_type_invariant(self);
        }
        self.capacity
    }

    /// What the bucket holds now: never more than its capacity.
    pub fn available(&self) -> (units: u64)
        ensures
            units == self@.available,
            units <= self@.capacity,
    {
        proof {
            use_type_invariant(self);
        }
        self.available
    }

    /// The units that one interval adds.
    pub fn refill_rate(&self) -> (units: u64)
        ensures
            units == self@.refill_rate,
            units > 0,
    {
        proof {
            use_type_invariant(self);
        }
        self.refill_rate
    }

    /// The length of an interval, in milliseconds.
    pub fn interval_ms(&self) -> (length: u64)
        ensures
            length == self@.interval,
            length > 0,
    {
        proof {
            use_type_invariant(self);
        }
        self.interval_ms
    }

    /// Takes `amount` units if the bucket holds that many, and says whether it
    /// did. A refusal changes nothing.
    pub fn try_acquire(&mut self, amount: u64) -> (granted: bool)
        ensures
            granted == old(self)@.grants(amount as nat),
            final(self)@ == old(self)@.take(amount as nat),
            final(self)@.valid(),
    {
        proof {
            use_type_invariant(&*self);
        }
        if self.available >= amount {
            self.available = self.available - amount;
            true
        } else {
            false
        }
    }

    /// Adds the units of `periods` intervals, as far as they fit.
    fn grant(&mut self, periods: u64)
        ensures
            final(self)@ == old(self)@.refill(periods as nat),
            final(self)@.valid(),
    {
        proof {
            use_type_invariant(&*self);
        }
        let room = self.capacity - self.available;
        match periods.checked_mul(self.refill_rate) {
            Some(units) if units <= room => {
                self.available = self.available + units;
            },
            _ => {
                self.available = self.capacity;
            },
        }
    }

    /// Adds the units of one interval, as far as they fit: the tick of a
    /// timer that fires once per interval.
    pub fn refill(&mut self)
        ensures
            final(self)@ == old(self)@.refill(1),
            final(self)@.valid(),
    {
        self.grant(1);
    }

    /// Brings the bucket up to the time `now_ms`: every whole interval that
    /// has passed since the last count adds its units, as far as they fit,
    /// and is counted. Called again with the same time, it adds nothing.
    pub fn refill_until(&mut self, now_ms: u64)
        ensures
            final(self)@ == old(self)@.advance(now_ms as nat),
            final(self)@.valid(),
    {
        proof {
            use_type_invariant(&*self);
        }
        if now_ms >= self.refilled_at_ms {
            let elapsed = now_ms - self.refilled_at_ms;
            let periods = elapsed / self.interval_ms;
            proof {
                lemma_fundamental_div_mod(elapsed as int, self.interval_ms as int);
                lemma_mul_inequality(0, periods as int, self.interval_ms as int);
                assert(periods * self.interval_ms <= elapsed) by (nonlinear_arith)
                    requires
                        elapsed == self.interval_ms * periods + elapsed % self.interval_ms,
                        elapsed % self.interval_ms >= 0,
                ;
            }
            let counted = self.refilled_at_ms + periods * self.interval_ms;
            let ghost before = *self;
            self.grant(periods);
            assert(self.refilled_at_ms == before.refilled_at_ms);
            self.refilled_at_ms = counted;
        }
    }

    /// Brings the bucket up to the time `now_ms`, then takes `amount` units
    /// if it holds that many, and says whether it did.
    pub fn try_acquire_at(&mut self, now_ms: u64, amount: u64) -> (granted: bool)
        ensures
            granted == old(self)@.advance(now_ms as nat).grants(amount as nat),
            final(self)@ == old(self)@.advance(now_ms as nat).take(amount as nat),
            final(self)@.valid(),
    {
        self.refill_until(now_ms);
        self.try_acquire(amount)
    }

    /// Fills the bucket to its capacity, after setting the capacity to
    /// `new_capacity` if one is given.
    pub fn reset_to_full(&mut self, new_capacity: Option<u64>)
        requires
            new_capacity matches Some(capacity) ==> capacity > 0,
        ensures
            final(self)@ == old(self)@.top_up(
                match new_capacity {
                    Some(capacity) => Some(capacity as nat),
                    None => None,
                },
            ),
            final(self)@.available == final(self)@.capacity,
            final(self)@.valid(),
    {
        proof {
            use_type_invariant(&*self);
        }
        let capacity = match new_capacity {
            Some(capacity) => capacity,
            None => self.capacity,
        };
        *self = AdmissionController {
            capacity,
            available: capacity,
            refill_rate: self.refill_rate,
            interval_ms: self.interval_ms,
            refilled_at_ms: self.refilled_at_ms,
        };
    }
}

} // verus!
