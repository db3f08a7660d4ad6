//! The pacing controller: the pause between requests, and how it grows.
//!
//! The controller keeps one number, the delay ratchet, in milliseconds. The
//! pause after a request is drawn at random from the `SPAN_MS` milliseconds
//! that start at the ratchet. Each fetch that had to retry pushes the ratchet
//! up by a random increment; nothing ever brings it down again.

use vstd::prelude::*;

verus! {

/// The value of the ratchet when a run starts, in milliseconds.
pub const FLOOR_MS: u64 = 50;

/// The width of the range that a delay is drawn from, in milliseconds.
pub const SPAN_MS: u64 = 50;

/// The smallest increment of the ratchet, in milliseconds.
pub const INCREMENT_MIN_MS: u64 = 40;

/// The end of the range of increments: every increment is below it.
pub const INCREMENT_END_MS: u64 = 60;

/// The largest ratchet that can still take an increment: above it, a further
/// increment and the span of a delay would no longer fit a `u64`.
pub const RATCHET_LIMIT_MS: u64 = 0xffff_ffff_ffff_ff00;

/// Whether `increment` is one that the controller may draw.
pub open spec fn is_increment(increment: u64) -> bool {
    INCREMENT_MIN_MS <= increment < INCREMENT_END_MS
}

/// Whether `delay` is one that a controller with this ratchet may draw.
pub open spec fn is_delay(ratchet: u64, delay: u64) -> bool {
    ratchet <= delay < ratchet + SPAN_MS
}

/// The ratchet after one fetch was recorded: raised by `increment` if the
/// fetch retried, unchanged if it did not.
pub open spec fn bumped(ratchet: int, retried: bool, increment: int) -> int {
    if retried {
        ratchet + increment
    } else {
        ratchet
    }
}

/// One recorded fetch: whether it retried, and the increment that was drawn
/// for it.
pub struct Record {
    pub retried: bool,
    pub increment: u64,
}

/// The ratchet that starts at `start` after `records` were recorded in order.
pub open spec fn ratchet_after(start: int, records: Seq<Record>) -> int
    decreases records.len(),
{
    if records.len() == 0 {
        start
    } else {
        bumped(
            ratchet_after(start, records.drop_last()),
            records.last().retried,
            records.last().increment as int,
        )
    }
}

/// The number of fetches among `records` that retried.
pub open spec fn retried_count(records: Seq<Record>) -> nat
    decreases records.len(),
{
    if records.len() == 0 {
        0
    } else {
        retried_count(records.drop_last()) + if records.last().retried {
            1nat
        } else {
            0nat
        }
    }
}

/// Draws a number with `rand::random_range`, from the thread-local generator
/// of the `rand` crate. The call panics on an empty range, which `requires`
/// rules out; of the result only the range is known, and two calls may differ.
#[verifier::external_body]
fn random_in(low: u64, high: u64) -> (drawn: u64)
    requires
        low < high,
    ensures
        low <= drawn < high,
{
    rand::random_range(low..high)
}

/// The pacing controller.
#[derive(Clone, Copy, Debug, PartialEq, Eq)]
pub struct PacingController {
    ratchet: u64,
}

impl PacingController {
    #[verifier::type_invariant]
    spec fn within_limits(&self) -> bool {
        FLOOR_MS <= self.ratchet <= RATCHET_LIMIT_MS + INCREMENT_END_MS
    }

    /// The delay ratchet, in milliseconds.
    pub closed spec fn ratchet_ms(&self) -> u64 {
        self.ratchet
    }

    /// Whether the ratchet can take one more increment.
    pub open spec fn has_headroom(&self) -> bool {
        self.ratchet_ms() <= RATCHET_LIMIT_MS
    }

    /// A controller at the start of a run: the ratchet stands at `FLOOR_MS`.
    pub fn new() -> (pacing: PacingController)
        ensures
            pacing.ratchet_ms() == FLOOR_MS,
    {
        PacingController { ratchet: FLOOR_MS }
    }

    /// The delay ratchet, in milliseconds.
    pub fn ratchet(&self) -> (ratchet: u64)
        ensures
            ratchet == self.ratchet_ms(),
            ratchet >= FLOOR_MS,
    {
        proof {
            use_type_invariant(self);
        }
        self.ratchet
    }

    /// Whether the ratchet can take one more increment.
    pub fn can_record(&self) -> (yes: bool)
        ensures
            yes == self.has_headroom(),
    {
        self.ratchet <= RATCHET_LIMIT_MS
    }

    /// Draws the pause between requests, in milliseconds: a number at or
    /// above the ratchet and less than `SPAN_MS` above it. Two draws may
    /// differ.
    pub fn next_delay(&self) -> (delay: u64)
        ensures
            is_delay(self.ratchet_ms(), delay),
    {
        proof {
            use_type_invariant(self);
        }
        random_in(self.ratchet, self.ratchet + SPAN_MS)
    }

    /// Draws an increment for the ratchet, in milliseconds: at least
    /// `INCREMENT_MIN_MS` and less than `INCREMENT_END_MS`. Two draws may
    /// differ.
    pub fn next_increment(&self) -> (increment: u64)
        ensures
            is_increment(increment),
    {
        random_in(INCREMENT_MIN_MS, INCREMENT_END_MS)
    }

    /// Records one fetch for which `increment` was drawn: the ratchet rises by
    /// `increment` if the fetch retried and stays where it is if it did not.
    pub fn record_with(&mut self, retried: bool, increment: u64)
        requires
            is_increment(increment),
            retried ==> old(self).has_headroom(),
        ensures
            final(self).ratchet_ms() == bumped(
                old(self).ratchet_ms() as int,
                retried,
                increment as int,
            ),
    {
        proof {
            use_type_invariant(&*self);
        }
        if retried {
            self.ratchet = self.ratchet + increment;
        }
    }

    /// Records one fetch: if it retried, the ratchet rises by an increment
    /// drawn at random, at least `INCREMENT_MIN_MS` and less than
    /// `INCREMENT_END_MS`; if it did not, the ratchet stays where it is.
    pub fn record(&mut self, retried: bool)
        requires
            retried ==> old(self).has_headroom(),
        ensures
            !retried ==> final(self).ratchet_ms() == old(self).ratchet_ms(),
            retried ==> is_increment(
                (final(self).ratchet_ms() - old(self).ratchet_ms()) as u64,
            ),
            retried ==> final(self).ratchet_ms() > old(self).ratchet_ms(),
    {
        if retried {
            let increment = self.next_increment();
            self.record_with(true, increment);
        }
    }
}

/// The ratchet never moves down, and each fetch that retried moves it up: by
/// at least `INCREMENT_MIN_MS` and by less than `INCREMENT_END_MS`. So after
/// any fetches, of which at least one retried, it is strictly above where it
/// started.
pub proof fn lemma_ratchet_after(start: int, records: Seq<Record>)
    requires
        forall|i: int| 0 <= i < records.len() ==> is_increment((#[trigger] records[i]).increment),
    ensures
        start + INCREMENT_MIN_MS * retried_count(records) <= ratchet_after(start, records),
        ratchet_after(start, records) <= start + (INCREMENT_END_MS - 1) * retried_count(records),
        ratchet_after(start, records) >= start,
        retried_count(records) > 0 ==> ratchet_after(start, records) > start,
    decreases records.len(),
{
    if records.len() > 0 {
        let before = records.drop_last();
        assert forall|i: int| 0 <= i < before.len() implies is_increment(
            (#[trigger] before[i]).increment,
        ) by {
            assert(before[i] == records[i]);
        }
        lemma_ratchet_after(start, before);
        assert(is_increment(records[records.len() - 1].increment));
    }
}

/// Recording two lists of fetches in a row is recording the second after the
/// first.
pub proof fn lemma_ratchet_after_add(start: int, first: Seq<Record>, second: Seq<Record>)
    ensures
        ratchet_after(start, first + second) == ratchet_after(
            ratchet_after(start, first),
            second,
        ),
    decreases second.len(),
{
    if second.len() == 0 {
        assert(first + second =~= first);
    } else {
        assert((first + second).drop_last() =~= first + second.drop_last());
        lemma_ratchet_after_add(start, first, second.drop_last());
    }
}

/// At no point of a run is the ratchet lower than it was at an earlier
/// point: after the first `earlier` of `records` it is at most what it is
/// after all of them.
pub proof fn lemma_ratchet_never_decreases(start: int, records: Seq<Record>, earlier: int)
    requires
        0 <= earlier <= records.len(),
    ensures
        ratchet_after(start, records.take(earlier)) <= ratchet_after(start, records),
    decreases records.len() - earlier,
{
    if earlier == records.len() {
        assert(records.take(earlier) =~= records);
    } else {
        let longer = records.take(earlier + 1);
        assert(longer.drop_last() =~= records.take(earlier));
        assert(longer.last() == records[earlier]);
        lemma_ratchet_never_decreases(start, records, earlier + 1);
    }
}

/// Three fetches in a row that each retried leave the ratchet at least three
/// smallest increments above its start.
pub proof fn lemma_three_retried(start: int, records: Seq<Record>)
    requires
        records.len() == 3,
        forall|i: int|
            0 <= i < 3 ==> (#[trigger] records[i]).retried && is_increment(records[i].increment),
    ensures
        ratchet_after(start, records) >= start + 3 * INCREMENT_MIN_MS,
        ratchet_after(start, records) > start,
{
    reveal_with_fuel(ratchet_after, 4);
    assert(records[2].retried && records[1].retried && records[0].retried);
}

} // verus!
