use rand::Rng;
use vstd::prelude::*;

use crate::buffer::SampleBuffer;
use crate::sample::{lemma_monotone_push, monotone, Sample, VALUE_RANGE_MILLI};

verus! {

/// Relies on rand::Rng::gen_range on a fresh rand::thread_rng handle:
/// it returns a uniformly distributed value in the half-open range it is
/// given, here `[0, bound)`, and panics only on an empty range, which
/// `bound > 0` rules out. Nothing more than the range can be promised of
/// a random draw.
#[verifier::external_body]
fn draw_below(bound: u64) -> (value: u64)
    requires
        bound > 0,
    ensures
        value < bound,
{
    let mut rng = rand::thread_rng();
    rng.gen_range(0..bound)
}

/// The state the generator carries between ticks: how many samples it
/// has appended so far and the elapsed time it recorded last.
///
/// The generator simulates an external metric source. The embedding runs
/// it as a background task that sleeps for a fixed interval, reads the
/// monotonic clock, and hands the elapsed milliseconds to [`Self::tick`];
/// everything the tick decides and writes is verified here.
pub struct SampleGenerator {
    pub ticks: u64,
    pub last_elapsed_ms: u64,
}

impl SampleGenerator {
    /// The generator holds the single writer role for `buffer`: every
    /// sample in the log was appended by one of its ticks. So the log
    /// has exactly one sample per tick, in chronological order, each no
    /// later than the last recorded elapsed time and each value inside
    /// the generated range.
    pub open spec fn owns(self, buffer: SampleBuffer) -> bool {
        &&& buffer@.len() == self.ticks
        &&& monotone(buffer@)
        &&& (buffer@.len() > 0 ==> buffer@.last().elapsed_ms <= self.last_elapsed_ms)
        &&& forall|i: int| 0 <= i < buffer@.len() ==> buffer@[i].value_milli < VALUE_RANGE_MILLI
    }

    /// A fresh generator: no ticks yet, reference time just recorded.
    /// It owns any buffer that is still empty.
    pub fn new() -> (generator: Self)
        ensures
            generator.ticks == 0,
            generator.last_elapsed_ms == 0,
            forall|buffer: SampleBuffer| buffer@.len() == 0 ==> generator.owns(buffer),
    {
        SampleGenerator { ticks: 0, last_elapsed_ms: 0 }
    }

    /// One generator tick: record the elapsed time the clock handed in,
    /// draw a random value in `[0, 10.0)` units, and append the pair at
    /// the end of the buffer. Everything already stored is untouched.
    ///
    /// The clock is monotonic, so the caller always has an elapsed time
    /// no earlier than the last one recorded.
    pub fn tick(&mut self, buffer: &mut SampleBuffer, elapsed_ms: u64)
        requires
            old(self).owns(*old(buffer)),
            old(self).last_elapsed_ms <= elapsed_ms,
            old(self).ticks < u64::MAX,
        ensures
            final(self).owns(*final(buffer)),
            final(self).ticks == old(self).ticks + 1,
            final(self).last_elapsed_ms == elapsed_ms,
            final(buffer)@.len() == old(buffer)@.len() + 1,
            forall|i: int| 0 <= i < old(buffer)@.len() ==> final(buffer)@[i] == old(buffer)@[i],
            final(buffer)@.last().elapsed_ms == elapsed_ms,
            final(buffer)@.last().value_milli < VALUE_RANGE_MILLI,
    {
        let value_milli = draw_below(VALUE_RANGE_MILLI);
        let sample = Sample { elapsed_ms, value_milli };
        proof {
            lemma_monotone_push(old(buffer)@, sample);
        }
        buffer.append(sample);
        self.ticks = self.ticks + 1;
        self.last_elapsed_ms = elapsed_ms;
    }
}

/// After any sequence of generator ticks into a buffer the generator
/// owns, the snapshot has exactly one entry per tick, with elapsed times
/// non-decreasing across the whole sequence. `tick` preserves ownership,
/// so this holds inductively of every run of the generator.
pub proof fn lemma_one_sample_per_tick(generator: SampleGenerator, buffer: SampleBuffer)
    requires
        generator.owns(buffer),
    ensures
        buffer@.len() == generator.ticks,
        monotone(buffer@),
{
}

} // verus!
