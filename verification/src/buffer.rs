use vstd::prelude::*;

use crate::sample::Sample;

verus! {

/// The shared ordered log of samples: append-only, never truncated or
/// compacted, created empty and alive for the whole session.
///
/// Exactly one writer (the generator) and one reader (the dashboard's
/// render step) exist at a time. Rust's exclusive-reference discipline
/// carries that single-writer rule through the contracts below; the
/// embedding that shares the buffer between the two roles serializes
/// them around each `append` and `snapshot` call.
pub struct SampleBuffer {
    samples: Vec<Sample>,
}

impl View for SampleBuffer {
    type V = Seq<Sample>;

    closed spec fn view(&self) -> Seq<Sample> {
        self.samples@
    }
}

impl SampleBuffer {
    /// The buffer starts empty.
    pub fn new() -> (buffer: Self)
        ensures
            buffer@ == Seq::<Sample>::empty(),
    {
        SampleBuffer { samples: Vec::new() }
    }

    /// Add one sample at the end; everything already stored stays where
    /// it is. Never fails.
    pub fn append(&mut self, sample: Sample)
        ensures
            final(self)@ == old(self)@.push(sample),
    {
        self.samples.push(sample);
    }

    /// How many samples are stored.
    pub fn len(&self) -> (n: usize)
        ensures
            n == self@.len(),
    {
        self.samples.len()
    }

    /// A consistent read-only copy of everything stored right now, in
    /// append order, safe to walk while later appends continue on the
    /// buffer itself.
    pub fn snapshot(&self) -> (view: Vec<Sample>)
        ensures
            view@ == self@,
    {
        let mut out: Vec<Sample> = Vec::new();
        let mut i: usize = 0;
        while i < self.samples.len()
            invariant
                i <= self.samples.len(),
                out@ == self.samples@.take(i as int),
            decreases self.samples.len() - i,
        {
            out.push(self.samples[i]);
            proof {
                assert(out@ =~= self.samples@.take(i + 1));
            }
            i = i + 1;
        }
        proof {
            assert(self.samples@.take(self.samples@.len() as int) =~= self.samples@);
        }
        out
    }
}

/// A snapshot races an append only at the serialization boundary the
/// embedding provides, so it observes the log either before the whole
/// append or after it. Either observation is a sequence of complete
/// samples: the one after the append extends the one before by exactly
/// the new sample, whole, and changes nothing else — a sample is never
/// observable in part.
pub proof fn lemma_snapshot_append_atomic(before: Seq<Sample>, sample: Sample)
    ensures
        before.push(sample).len() == before.len() + 1,
        before.push(sample)[before.len() as int] == sample,
        forall|i: int| 0 <= i < before.len() ==> before.push(sample)[i] == before[i],
{
}

} // verus!
