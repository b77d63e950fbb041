use vstd::prelude::*;

verus! {

/// Upper bound (exclusive) of the generated value range, in thousandths
/// of a unit: generated values lie in `[0.0, 10.0)` units.
pub const VALUE_RANGE_MILLI: u64 = 10_000;

/// One data point produced by the generator: the time elapsed since the
/// generator started, in milliseconds, and the sampled value in
/// thousandths of a unit (a value of `10.0` units is stored as `10_000`).
///
/// Both coordinates are fixed-point integers so the whole data model is
/// visible to the verifier; the presentation layer converts them to
/// seconds and units for display. The pair itself imposes no range on
/// the value: the generated range is the generator's policy.
#[derive(Clone, Copy, Debug, PartialEq, Eq, Structural)]
pub struct Sample {
    pub elapsed_ms: u64,
    pub value_milli: u64,
}

/// Elapsed times never decrease along a sequence of samples: append
/// order is chronological order.
pub open spec fn monotone(samples: Seq<Sample>) -> bool {
    forall|i: int, j: int|
        0 <= i <= j < samples.len() ==> samples[i].elapsed_ms <= samples[j].elapsed_ms
}

/// Appending a sample no earlier than the last one keeps the sequence
/// chronological.
pub proof fn lemma_monotone_push(samples: Seq<Sample>, sample: Sample)
    requires
        monotone(samples),
        samples.len() > 0 ==> samples.last().elapsed_ms <= sample.elapsed_ms,
    ensures
        monotone(samples.push(sample)),
{
    let pushed = samples.push(sample);
    assert forall|i: int, j: int|
        0 <= i <= j < pushed.len() implies pushed[i].elapsed_ms <= pushed[j].elapsed_ms by {
        if j < samples.len() {
        } else if i < samples.len() {
            assert(samples[i].elapsed_ms <= samples[samples.len() - 1].elapsed_ms);
        }
    }
}

} // verus!
