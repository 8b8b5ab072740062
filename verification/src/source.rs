//! Sample generators.
//!
//! A [`Source`] is a stateful capability: it can produce a finite run of
//! samples on demand, into a caller-provided mono or stereo buffer. A
//! sample here is one 32-bit word, the raw encoding of the sample value
//! that the playback device consumes; the waveform arithmetic that fills
//! the word is each generator's own business.
//!
//! The contract pins two things down. First, the words written are exactly
//! the generator's modelled waveform, sample by sample. Second, the
//! generator's state advances once per output sample, deterministically,
//! so that splitting one request into several smaller contiguous requests
//! produces identical output ([`lemma_chunking_invisible`]).

use vstd::prelude::*;

verus! {

/// One stereo sample instant: the 32-bit words of the left and the right
/// channel. A plain value, no invariant.
pub struct StereoOut {
    pub left: u32,
    pub right: u32,
}

/// A stateful sample generator.
///
/// `sample_rate` must be identical across all calls to one instance for
/// the lifetime of that instance. Generators that keep internal continuous
/// state (a phase accumulator) ignore `offset` and advance from the
/// previous call, so a caller must request strictly increasing, gap-free,
/// non-overlapping runs per instance.
pub trait Source: Sized {
    /// The waveform: the sample word this generator produces `k` samples
    /// after its current state, at the given sample rate.
    spec fn sample_at(&self, sample_rate: u32, k: int) -> u32;

    /// The generator's state after producing `n` samples.
    spec fn advanced(&self, sample_rate: u32, n: int) -> Self;

    /// Producing `m` samples and then `n` more passes through the same
    /// states, and continues the same waveform, as producing `m + n` at
    /// once. Every generator must prove this; it is what makes chunked
    /// rendering invisible in the output.
    proof fn lemma_advance_composes(&self, sample_rate: u32, m: int, n: int)
        requires
            0 <= m,
            0 <= n,
        ensures
            self.advanced(sample_rate, 0) == *self,
            self.advanced(sample_rate, m).advanced(sample_rate, n)
                == self.advanced(sample_rate, m + n),
            self.advanced(sample_rate, m).sample_at(sample_rate, n)
                == self.sample_at(sample_rate, m + n),
    ;

    /// Fills `out` entirely with the next `out.len()` samples of the
    /// waveform; the buffer's length alone determines the work done.
    /// `offset` is the absolute index of `out[0]` since the epoch, for
    /// generators that want it. Infallible: no error returns.
    fn populate_mono(&mut self, offset: u64, sample_rate: u32, out: &mut Vec<u32>)
        ensures
            final(out)@.len() == old(out)@.len(),
            forall|k: int| 0 <= k < old(out)@.len() ==> (#[trigger] final(out)@[k])
                == old(self).sample_at(sample_rate, k),
            *final(self) == old(self).advanced(sample_rate, old(out)@.len() as int),
    ;

    /// As [`Source::populate_mono`], duplicating each mono sample into
    /// both channels identically (no stereo spread).
    fn populate_stereo(&mut self, offset: u64, sample_rate: u32, out: &mut Vec<StereoOut>)
        ensures
            final(out)@.len() == old(out)@.len(),
            forall|k: int| 0 <= k < old(out)@.len() ==> {
                &&& (#[trigger] final(out)@[k]).left == old(self).sample_at(sample_rate, k)
                &&& final(out)@[k].right == old(self).sample_at(sample_rate, k)
            },
            *final(self) == old(self).advanced(sample_rate, old(out)@.len() as int),
    ;
}

/// The run of `n` samples a generator produces from its current state.
pub open spec fn sample_seq<S: Source>(source: S, sample_rate: u32, n: nat) -> Seq<u32> {
    Seq::new(n, |k: int| source.sample_at(sample_rate, k))
}

/// The output of rendering a run in pieces: one buffer per entry of
/// `parts`, each picking up where the previous one stopped.
pub open spec fn chunked_samples<S: Source>(
    source: S,
    sample_rate: u32,
    parts: Seq<nat>,
) -> Seq<u32>
    decreases parts.len(),
{
    if parts.len() == 0 {
        Seq::empty()
    } else {
        sample_seq(source, sample_rate, parts[0]) + chunked_samples(
            source.advanced(sample_rate, parts[0] as int),
            sample_rate,
            parts.drop_first(),
        )
    }
}

/// The total length of a partition.
pub open spec fn total_samples(parts: Seq<nat>) -> nat
    decreases parts.len(),
{
    if parts.len() == 0 {
        0
    } else {
        (parts[0] + total_samples(parts.drop_first())) as nat
    }
}

/// Chunking is invisible: for every partition of a run into smaller
/// contiguous runs, rendering piece by piece concatenates to exactly the
/// run rendered in one request — identical output, word for word.
pub proof fn lemma_chunking_invisible<S: Source>(source: S, sample_rate: u32, parts: Seq<nat>)
    ensures
        chunked_samples(source, sample_rate, parts)
            == sample_seq(source, sample_rate, total_samples(parts)),
    decreases parts.len(),
{
    if parts.len() == 0 {
        assert(chunked_samples(source, sample_rate, parts)
            =~= sample_seq(source, sample_rate, total_samples(parts)));
    } else {
        let head = parts[0];
        let rest = parts.drop_first();
        let stepped = source.advanced(sample_rate, head as int);
        lemma_chunking_invisible(stepped, sample_rate, rest);
        assert forall|k: int| 0 <= k < total_samples(parts) implies
            chunked_samples(source, sample_rate, parts)[k]
                == source.sample_at(sample_rate, k) by {
            if head <= k {
                source.lemma_advance_composes(sample_rate, head as int, k - head);
            }
        }
        assert(chunked_samples(source, sample_rate, parts)
            =~= sample_seq(source, sample_rate, total_samples(parts)));
    }
}

/// The two-request case of [`lemma_chunking_invisible`], shaped like a
/// sink's callback contract: a run of `m` samples followed by the next
/// `n` from the advanced generator concatenates to the run of `m + n`
/// rendered in one request.
pub proof fn lemma_split_requests_concatenate<S: Source>(
    source: S,
    sample_rate: u32,
    m: nat,
    n: nat,
)
    ensures
        sample_seq(source, sample_rate, m) + sample_seq(
            source.advanced(sample_rate, m as int),
            sample_rate,
            n,
        ) == sample_seq(source, sample_rate, (m + n) as nat),
{
    let joined = sample_seq(source, sample_rate, m) + sample_seq(
        source.advanced(sample_rate, m as int),
        sample_rate,
        n,
    );
    assert forall|k: int| 0 <= k < m + n implies joined[k]
        == source.sample_at(sample_rate, k) by {
        if m <= k {
            source.lemma_advance_composes(sample_rate, m as int, k - m);
        }
    }
    assert(joined =~= sample_seq(source, sample_rate, (m + n) as nat));
}

} // verus!
