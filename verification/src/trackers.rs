//! The two counter-reconstruction components.
//!
//! `CounterTracker` detects lost events from the wrapping 16-bit event
//! sequence counter and maintains the reconstructed monotonic event count.
//! `RolloverTracker` reconstructs an unbounded monotonic timestamp from a
//! narrow wrapping hardware tick counter of a declared bit width.

use vstd::prelude::*;
use vstd::arithmetic::power2::{lemma2_to64, lemma2_to64_rest, lemma_pow2_pos, lemma_pow2_strictly_increases, pow2};
use vstd::arithmetic::div_mod::lemma_small_mod;
use vstd::arithmetic::mul::lemma_mul_inequality;

verus! {

/// The step the wrapping 16-bit sequence counter took from `last` to `new`:
/// the unique value in 1..=2^16 congruent to `new - last` (a repeated value is
/// a full wrap, not standstill — the counter advances on every event).
pub open spec fn spec_step(last: u16, new: u16) -> int {
    if new > last {
        new - last
    } else {
        0x10000 - last + new
    }
}

/// Detects lost events from the wrapping monotonic event sequence counter and
/// maintains the reconstructed (unwrapped) total event count.
#[derive(Clone, Copy, Debug, PartialEq, Eq, Structural)]
pub struct CounterTracker {
    /// The last observed raw counter value.
    pub count: u16,
    /// The reconstructed monotonic event count (wraps only after 2^64 events).
    pub total: u64,
}

impl CounterTracker {
    /// A tracker with an initial value of zero.
    pub fn zero() -> (r: CounterTracker)
        ensures
            r.count == 0,
            r.total == 0,
    {
        CounterTracker { count: 0, total: 0 }
    }

    /// Sets the baseline from the first observed value; reports no loss.
    pub fn set_initial_count(&mut self, count: u16)
        ensures
            final(self).count == count,
            final(self).total == count as u64,
    {
        self.count = count;
        self.total = count as u64;
    }

    /// Updates the baseline with the next observed value and returns the
    /// number of dropped events, if any: a step of 1 means no loss, a step of
    /// `d > 1` means `d - 1` events were dropped.  Wrapping (a value at or
    /// below the baseline) is expected behavior, never an error.
    pub fn update(&mut self, event_count: u16) -> (r: Option<u64>)
        ensures
            final(self).count == event_count,
            final(self).total == old(self).total.wrapping_add(
                spec_step(old(self).count, event_count) as u64,
            ),
            r == if spec_step(old(self).count, event_count) == 1 {
                None::<u64>
            } else {
                Some((spec_step(old(self).count, event_count) - 1) as u64)
            },
    {
        let step: u32 = if event_count > self.count {
            (event_count - self.count) as u32
        } else {
            0x1_0000u32 - (self.count as u32) + (event_count as u32)
        };
        self.count = event_count;
        self.total = self.total.wrapping_add(step as u64);
        if step == 1 {
            None
        } else {
            Some((step - 1) as u64)
        }
    }

    /// The reconstructed monotonic event count.
    pub fn count(&self) -> (r: u64)
        ensures
            r == self.total,
    {
        self.total
    }
}

/// Reconstructs an unbounded monotonic timestamp from a wrapping hardware
/// tick counter that is `width` bits wide.
#[derive(Clone, Copy, Debug, PartialEq, Eq, Structural)]
pub struct RolloverTracker {
    /// The declared bit width of the tick counter (1..=63).
    pub width: u32,
    /// The counter's range, 2^width.
    pub range: u64,
    /// The last observed raw tick value.
    pub last: u64,
    /// The wraparound count.
    pub upper: u64,
}

impl RolloverTracker {
    pub open spec fn wf(&self) -> bool {
        &&& 1 <= self.width <= 63
        &&& self.range == pow2(self.width as nat)
        &&& self.last < self.range
    }

    /// The reconstructed timestamp: `upper * 2^width + last`, modulo 2^64.
    pub open spec fn spec_timestamp(&self) -> u64 {
        self.upper.wrapping_mul(self.range).wrapping_add(self.last)
    }

    /// Computes 2^width for a counter width.
    fn pow2_range(width: u32) -> (r: u64)
        requires
            1 <= width <= 63,
        ensures
            r == pow2(width as nat),
    {
        proof {
            lemma2_to64();
        }
        let mut range: u64 = 1;
        let mut i: u32 = 0;
        while i < width
            invariant
                i <= width <= 63,
                range == pow2(i as nat),
            decreases width - i,
        {
            proof {
                lemma2_to64();
                lemma2_to64_rest();
                assert(pow2((i + 1) as nat) == pow2(i as nat) * 2) by {
                    vstd::arithmetic::power2::lemma_pow2_adds(i as nat, 1);
                }
                if i + 1 < 63 {
                    lemma_pow2_strictly_increases((i + 1) as nat, 63);
                }
                assert(range * 2 <= 0x8000_0000_0000_0000);
            }
            range = range * 2;
            i = i + 1;
        }
        range
    }

    /// A tracker initialized from the first observed raw tick, the wrap count
    /// the decoder declared at stream start, and the counter's bit width.
    /// The raw tick is reduced to the counter's range.
    pub fn new(first_raw_tick: u64, known_wrap_count: u64, tick_width: u32) -> (r: RolloverTracker)
        requires
            1 <= tick_width <= 63,
        ensures
            r.wf(),
            r.width == tick_width,
            r.last == first_raw_tick as nat % pow2(tick_width as nat),
            r.upper == known_wrap_count,
    {
        let range = Self::pow2_range(tick_width);
        proof {
            lemma_pow2_pos(tick_width as nat);
        }
        RolloverTracker {
            width: tick_width,
            range,
            last: first_raw_tick % range,
            upper: known_wrap_count,
        }
    }

    /// A tracker at tick zero with no wraparounds.
    pub fn zero(tick_width: u32) -> (r: RolloverTracker)
        requires
            1 <= tick_width <= 63,
        ensures
            r.wf(),
            r.width == tick_width,
            r.last == 0,
            r.upper == 0,
    {
        proof {
            lemma_pow2_pos(tick_width as nat);
        }
        Self::new(0, 0, tick_width)
    }

    /// Updates the tracker with the next raw tick and returns the
    /// reconstructed monotonic timestamp.  A backward jump by more than half
    /// the counter's range is a wraparound and increments the wrap count; any
    /// other value (equal, forward, or slightly backward) is normal progress.
    pub fn elapsed(&mut self, raw_tick: u64) -> (r: u64)
        requires
            old(self).wf(),
        ensures
            final(self).wf(),
            final(self).width == old(self).width,
            final(self).range == old(self).range,
            final(self).last == raw_tick % old(self).range,
            final(self).upper == if raw_tick % old(self).range < old(self).last && old(self).last
                - raw_tick % old(self).range > old(self).range / 2 {
                old(self).upper.wrapping_add(1)
            } else {
                old(self).upper
            },
            r == final(self).spec_timestamp(),
    {
        proof {
            lemma_pow2_pos(self.width as nat);
        }
        let now = raw_tick % self.range;
        if now < self.last && self.last - now > self.range / 2 {
            self.upper = self.upper.wrapping_add(1);
        }
        self.last = now;
        self.to_timestamp()
    }

    /// The reconstructed timestamp for the current state.
    pub fn to_timestamp(&self) -> (r: u64)
        ensures
            r == self.spec_timestamp(),
    {
        self.upper.wrapping_mul(self.range).wrapping_add(self.last)
    }
}

/// When no wrap of the 64-bit result is at stake, the reconstructed timestamp
/// is exactly `upper * 2^width + last`.
pub proof fn lemma_timestamp_exact(t: RolloverTracker)
    requires
        t.wf(),
        t.upper * t.range + t.last <= u64::MAX,
    ensures
        t.spec_timestamp() == t.upper * t.range + t.last,
{
    let m = 0x1_0000_0000_0000_0000nat;
    assert((t.upper as nat * t.range as nat) % m == (t.upper * t.range) as nat) by {
        lemma_small_mod((t.upper * t.range) as nat, m);
    }
    assert(t.upper.wrapping_mul(t.range) == t.upper * t.range);
    assert(t.spec_timestamp() == t.upper * t.range + t.last);
}

/// The reconstructed timeline is monotonic: for a well-formed step — the raw
/// tick moves forward (or repeats), or jumps backward by more than half the
/// range, which is read as a wrap — the reconstructed timestamp does not
/// decrease, and strictly increases unless the tick repeats.  (The bound
/// keeps the arithmetic inside 64 bits; a stream long enough to break it
/// would need 2^64 ticks.)
pub proof fn lemma_elapsed_monotonic(t: RolloverTracker, raw_tick: u64)
    requires
        t.wf(),
        raw_tick < t.range,
        (t.upper + 1) * t.range + raw_tick <= u64::MAX,
        t.upper * t.range + t.last <= u64::MAX,
        raw_tick >= t.last || t.last - raw_tick > t.range / 2,
    ensures
        spec_elapsed(t, raw_tick).spec_timestamp() >= t.spec_timestamp(),
        raw_tick != t.last ==> spec_elapsed(t, raw_tick).spec_timestamp() > t.spec_timestamp(),
{
    let t2 = spec_elapsed(t, raw_tick);
    lemma_pow2_pos(t.width as nat);
    lemma_small_mod(raw_tick as nat, t.range as nat);
    assert(t2.last == raw_tick);
    lemma_timestamp_exact(t);
    if raw_tick < t.last {
        // wraparound: one more full range is accounted for
        assert(t2.upper == t.upper.wrapping_add(1));
        assert(t.upper + 1 <= u64::MAX) by {
            lemma_mul_inequality(1, t.upper as int + 1, t.range as int);
        }
        assert(t2.upper == t.upper + 1);
        lemma_timestamp_exact(t2);
        assert((t.upper + 1) * t.range == t.upper * t.range + t.range) by {
            vstd::arithmetic::mul::lemma_mul_is_distributive_add_other_way(
                t.range as int,
                t.upper as int,
                1,
            );
        }
        assert(t2.spec_timestamp() > t.spec_timestamp());
    } else {
        // forward progress under the same wrap count
        assert(t2.upper == t.upper);
        assert(t2.upper * t2.range + t2.last <= u64::MAX) by {
            vstd::arithmetic::mul::lemma_mul_is_distributive_add_other_way(
                t.range as int,
                t.upper as int,
                1,
            );
        }
        lemma_timestamp_exact(t2);
    }
}

/// The tracker state after observing `raw_tick`, as `elapsed` computes it.
pub open spec fn spec_elapsed(t: RolloverTracker, raw_tick: u64) -> RolloverTracker {
    let now = raw_tick % t.range;
    RolloverTracker {
        width: t.width,
        range: t.range,
        last: now,
        upper: if now < t.last && t.last - now > t.range / 2 {
            t.upper.wrapping_add(1)
        } else {
            t.upper
        },
    }
}

} // verus!
