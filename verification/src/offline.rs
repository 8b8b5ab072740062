//! Chunked rendering, and a sink that renders without a device.
//!
//! A backend callback asks for a total sample count; the sink answers by
//! rendering it in chunks no larger than [`CHUNK_SIZE`], calling the
//! owned generator once per chunk with the running offset and advancing
//! the offset by each chunk's length. The contract of [`render_mono`]
//! says the one thing that matters: however the total is cut into
//! chunks, the output is the generator's waveform, word for word, as if
//! rendered in a single request.
//!
//! [`OfflineSink`] is a complete sink over that renderer with no backend
//! behind it: requests pull samples into a buffer the caller keeps. It
//! serves offline rendering and stands in for a device wherever one is
//! unavailable.

use vstd::prelude::*;

use crate::sink::Sink;
use crate::sink::SinkCore;
use crate::source::sample_seq;
use crate::source::Source;

verus! {

/// The largest number of samples rendered in one call to a generator.
pub const CHUNK_SIZE: usize = 2048;

/// How many bytes one sample word occupies on the device's wire.
pub const BYTES_PER_SAMPLE: usize = 4;

/// How many whole samples a backend's byte count asks for: a callback is
/// handed a byte total and owes one 32-bit sample word per four bytes.
pub fn samples_in_bytes(byte_count: usize) -> (n: usize)
    ensures
        n == byte_count / BYTES_PER_SAMPLE,
{
    byte_count / BYTES_PER_SAMPLE
}

/// Renders `total` mono samples from `source` in chunks of at most
/// [`CHUNK_SIZE`], starting at absolute offset `offset`: each chunk
/// continues exactly where the previous one stopped, so the output is
/// the generator's next `total` waveform samples — chunking leaves no
/// trace in the output.
pub fn render_mono<S: Source>(source: &mut S, offset: u64, sample_rate: u32, total: usize) -> (out:
    Vec<u32>)
    ensures
        out@ == sample_seq(*old(source), sample_rate, total as nat),
        *final(source) == old(source).advanced(sample_rate, total as int),
{
    let ghost start = *source;
    proof {
        start.lemma_advance_composes(sample_rate, 0, 0);
    }
    let mut out: Vec<u32> = Vec::new();
    while out.len() < total
        invariant
            out@.len() <= total,
            *source == start.advanced(sample_rate, out@.len() as int),
            forall|k: int| 0 <= k < out@.len() ==> (#[trigger] out@[k])
                == start.sample_at(sample_rate, k),
        decreases total - out@.len(),
    {
        let ghost done = out@.len() as int;
        let remaining = total - out.len();
        let chunk = if remaining < CHUNK_SIZE {
            remaining
        } else {
            CHUNK_SIZE
        };
        let mut buf: Vec<u32> = vec![0u32; chunk];
        source.populate_mono(offset.wrapping_add(out.len() as u64), sample_rate, &mut buf);
        proof {
            start.lemma_advance_composes(sample_rate, done, chunk as int);
            assert forall|j: int| 0 <= j < chunk implies buf@[j]
                == start.sample_at(sample_rate, done + j) by {
                start.lemma_advance_composes(sample_rate, done, j);
            }
        }
        out.append(&mut buf);
    }
    proof {
        assert(out@ =~= sample_seq(start, sample_rate, total as nat));
    }
    out
}

/// A sink with no device behind it: transport state and a generator,
/// rendering on request into a returned buffer. Construction acquires
/// nothing, so its controls never fail.
pub struct OfflineSink<S: Source> {
    /// Transport state and position bookkeeping.
    pub core: SinkCore,
    /// The owned generator.
    pub source: S,
}

impl<S: Source> OfflineSink<S> {
    /// A halted sink at offset zero, owning `source`.
    pub fn new(source: S, sample_rate: u32) -> (sink: OfflineSink<S>)
        ensures
            sink.core == (SinkCore { sample_offset: 0, sample_rate, playing: false }),
            sink.source == source,
    {
        OfflineSink { core: SinkCore::new(sample_rate), source }
    }

    /// Answers one callback invocation: renders `total` samples in
    /// chunks from the current offset, then advances the offset by
    /// `total`, wrapping on overflow.
    pub fn request(&mut self, total: usize) -> (out: Vec<u32>)
        ensures
            out@ == sample_seq(old(self).source, old(self).core.sample_rate, total as nat),
            final(self).source == old(self).source.advanced(
                old(self).core.sample_rate,
                total as int,
            ),
            final(self).core == old(self).core.advanced_spec(total as u64),
    {
        let out = render_mono(
            &mut self.source,
            self.core.sample_offset,
            self.core.sample_rate,
            total,
        );
        self.core.advance(total as u64);
        out
    }
}

impl<S: Source> Sink for OfflineSink<S> {
    open spec fn position(&self) -> u64 {
        self.core.sample_offset
    }

    open spec fn is_playing(&self) -> bool {
        self.core.playing
    }

    open spec fn sample_rate(&self) -> u32 {
        self.core.sample_rate
    }

    /// Never fails: there is no backend to refuse.
    fn play(&mut self) -> (r: Result<(), String>)
        ensures
            r is Ok,
            final(self).source == old(self).source,
    {
        self.core.play();
        Ok(())
    }

    /// Never fails: there is no backend to refuse.
    fn play_at(&mut self, secs: u64, nanos: u32) -> (r: Result<(), String>)
        ensures
            r is Ok,
            final(self).is_playing(),
            final(self).source == old(self).source,
    {
        self.core.play_at(secs, nanos);
        Ok(())
    }

    /// Never fails: there is no backend to refuse.
    fn pause(&mut self) -> (r: Result<(), String>)
        ensures
            r is Ok,
            final(self).source == old(self).source,
    {
        self.core.pause();
        Ok(())
    }
}

} // verus!
