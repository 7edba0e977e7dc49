//! The decodable source model: the sample FIFO, prebuffer and exhaustion
//! bookkeeping of a pull-based decode source.
//!
//! The demuxer and decoder live with the caller, which classifies each
//! packet read into a [`PacketOutcome`] and feeds it to a [`DecodeBuffer`];
//! every decision — skipping foreign or corrupt packets, treating
//! end-of-stream as exhaustion, surfacing a read failure once — is made
//! here, verified. The output path pulls one interleaved signed 16-bit
//! sample at a time and sees none only once the buffer is drained and the
//! stream is confirmed exhausted.

use vstd::prelude::*;
use std::collections::VecDeque;
use vstd::arithmetic::mul::lemma_mul_upper_bound;

verus! {

/// Samples to prebuffer per second of audio, in tenths: one and a half
/// seconds absorbs decode latency so playback start does not stutter.
pub const PREBUFFER_TENTHS_OF_SECOND: u64 = 15;

/// What one attempt to read and decode a packet came to, as the caller
/// observed it on the demuxer and decoder.
#[derive(Debug)]
pub enum PacketOutcome {
    /// A packet of the selected track decoded into interleaved samples.
    Samples(Vec<i16>),
    /// A packet of some other track; not an error.
    WrongTrack,
    /// A corrupt packet the decoder rejected; recoverable.
    CorruptPacket,
    /// The stream ended where a packet was expected.
    EndOfStream,
    /// Any other failure while reading the stream.
    ReadError,
}

/// What the source does after absorbing a [`PacketOutcome`].
#[derive(Debug, PartialEq, Eq, Structural)]
pub enum DecodeStep {
    /// Samples were appended; the pull that asked for them is satisfied.
    Produced,
    /// The packet was skipped; read the next one.
    TryAgain,
    /// The stream is exhausted; no more samples will come.
    Exhausted,
    /// A read failure, surfaced once; the source acts exhausted from now
    /// on.
    Failed,
}

/// How many samples the prebuffer must hold before the source is handed
/// to the output device: one and a half seconds of interleaved audio, at
/// least one sample, capped at what a length can address.
pub open spec fn spec_prebuffer_samples(sample_rate: u32, channels: u16) -> usize {
    let need = sample_rate as int * channels as int * PREBUFFER_TENTHS_OF_SECOND as int / 10;
    if need == 0 {
        1usize
    } else if need > usize::MAX {
        usize::MAX
    } else {
        need as usize
    }
}

/// The sample FIFO of one decodable source, together with its prebuffer
/// goal and exhaustion state.
#[derive(Debug)]
pub struct DecodeBuffer {
    /// Decoded interleaved samples not yet pulled by the output path.
    pub samples: VecDeque<i16>,
    /// How many samples must be buffered before playback may start.
    pub prebuffer_samples: usize,
    /// Whether the stream is confirmed to yield no further samples.
    pub is_exhausted: bool,
}

impl DecodeBuffer {
    /// An empty buffer for a stream with the given sample rate and
    /// channel count, its prebuffer goal fixed at one and a half seconds
    /// of interleaved audio.
    pub fn new(sample_rate: u32, channels: u16) -> (b: DecodeBuffer)
        ensures
            b.samples@ == Seq::<i16>::empty(),
            !b.is_exhausted,
            b.prebuffer_samples == spec_prebuffer_samples(sample_rate, channels),
            b.prebuffer_samples >= 1,
    {
        proof {
            lemma_mul_upper_bound(sample_rate as int, u32::MAX as int, channels as int,
                u16::MAX as int);
            lemma_mul_upper_bound(sample_rate as int * channels as int,
                u32::MAX as int * u16::MAX as int, PREBUFFER_TENTHS_OF_SECOND as int, 15int);
        }
        let need: u64 = sample_rate as u64 * channels as u64 * PREBUFFER_TENTHS_OF_SECOND / 10;
        let target: usize = if need == 0 {
            1
        } else if need > usize::MAX as u64 {
            usize::MAX
        } else {
            need as usize
        };
        DecodeBuffer {
            samples: VecDeque::new(),
            prebuffer_samples: target,
            is_exhausted: false,
        }
    }

    /// How many samples are currently buffered.
    pub fn buffered(&self) -> (n: usize)
        ensures
            n == self.samples@.len(),
    {
        self.samples.len()
    }

    /// Whether enough is buffered to hand the source to the output
    /// device.
    pub fn prebuffer_filled(&self) -> (r: bool)
        ensures
            r == (self.samples@.len() >= self.prebuffer_samples),
    {
        self.samples.len() >= self.prebuffer_samples
    }

    /// Whether the next pull must first decode: the buffer is empty but
    /// the stream is not yet confirmed exhausted.
    pub fn needs_decode(&self) -> (r: bool)
        ensures
            r == (self.samples@.len() == 0 && !self.is_exhausted),
    {
        self.samples.len() == 0 && !self.is_exhausted
    }

    /// Absorbs the outcome of one packet read: appends decoded samples of
    /// the selected track, skips foreign and corrupt packets, records
    /// end-of-stream as exhaustion, and treats any other read failure —
    /// surfaced once to the caller as [`DecodeStep::Failed`] — as
    /// exhaustion from then on.
    pub fn absorb(&mut self, outcome: PacketOutcome) -> (step: DecodeStep)
        ensures
            final(self).prebuffer_samples == old(self).prebuffer_samples,
            match outcome {
                PacketOutcome::Samples(v) => {
                    &&& final(self).samples@ == old(self).samples@ + v@
                    &&& final(self).is_exhausted == old(self).is_exhausted
                    &&& step == DecodeStep::Produced
                },
                PacketOutcome::WrongTrack | PacketOutcome::CorruptPacket => {
                    &&& *final(self) == *old(self)
                    &&& step == DecodeStep::TryAgain
                },
                PacketOutcome::EndOfStream => {
                    &&& final(self).samples@ == old(self).samples@
                    &&& final(self).is_exhausted
                    &&& step == DecodeStep::Exhausted
                },
                PacketOutcome::ReadError => {
                    &&& final(self).samples@ == old(self).samples@
                    &&& final(self).is_exhausted
                    &&& step == DecodeStep::Failed
                },
            },
    {
        match outcome {
            PacketOutcome::Samples(v) => {
                let mut i: usize = 0;
                while i < v.len()
                    invariant
                        i <= v.len(),
                        self.samples@ == old(self).samples@ + v@.subrange(0, i as int),
                        self.is_exhausted == old(self).is_exhausted,
                        self.prebuffer_samples == old(self).prebuffer_samples,
                    decreases v.len() - i,
                {
                    self.samples.push_back(v[i]);
                    proof {
                        assert(v@.subrange(0, i + 1) == v@.subrange(0, i as int).push(v@[i as int]));
                    }
                    i += 1;
                }
                proof {
                    assert(v@.subrange(0, v@.len() as int) == v@);
                }
                DecodeStep::Produced
            },
            PacketOutcome::WrongTrack => DecodeStep::TryAgain,
            PacketOutcome::CorruptPacket => DecodeStep::TryAgain,
            PacketOutcome::EndOfStream => {
                self.is_exhausted = true;
                DecodeStep::Exhausted
            },
            PacketOutcome::ReadError => {
                self.is_exhausted = true;
                DecodeStep::Failed
            },
        }
    }

    /// Pulls the next sample. None comes back only once the buffer is
    /// empty; the caller refills first (via [`Self::absorb`]) whenever
    /// [`Self::needs_decode`] holds, so a drained buffer means true
    /// exhaustion or a surfaced failure.
    pub fn pop_sample(&mut self) -> (s: Option<i16>)
        ensures
            final(self).prebuffer_samples == old(self).prebuffer_samples,
            final(self).is_exhausted == old(self).is_exhausted,
            match s {
                Some(x) => {
                    &&& old(self).samples@.len() > 0
                    &&& x == old(self).samples@[0]
                    &&& final(self).samples@ == old(self).samples@.drop_first()
                },
                None => {
                    &&& old(self).samples@.len() == 0
                    &&& final(self).samples@ == old(self).samples@
                },
            },
    {
        let s = self.samples.pop_front();
        proof {
            if old(self).samples@.len() > 0 {
                assert(old(self).samples@.subrange(1, old(self).samples@.len() as int)
                    == old(self).samples@.drop_first());
            }
        }
        s
    }

    /// Resets the buffer for a completed demuxer seek: the stale samples
    /// are dropped and the stream is no longer considered exhausted.
    pub fn clear_for_seek(&mut self)
        ensures
            final(self).samples@ == Seq::<i16>::empty(),
            !final(self).is_exhausted,
            final(self).prebuffer_samples == old(self).prebuffer_samples,
    {
        self.samples.clear();
        self.is_exhausted = false;
    }
}

/// The duration a source reports: the container's own duration when the
/// demuxer could compute one, else the caller-supplied hint. A load never
/// fails solely because the duration cannot be determined.
pub open spec fn spec_resolve_duration(container_ms: Option<u64>, hint_ms: u64) -> u64 {
    match container_ms {
        Some(d) => d,
        None => hint_ms,
    }
}

/// Picks the duration for a freshly constructed source; see
/// [`spec_resolve_duration`].
pub fn resolve_duration(container_ms: Option<u64>, hint_ms: u64) -> (r: u64)
    ensures
        r == spec_resolve_duration(container_ms, hint_ms),
{
    match container_ms {
        Some(d) => d,
        None => hint_ms,
    }
}

/// A track's duration in milliseconds from its frame count and its time
/// base `numer / denom` (seconds per frame tick), rounded down, saturated
/// at the largest representable value.
pub open spec fn spec_duration_ms(frames: u64, numer: u32, denom: u32) -> u64 {
    let exact = frames as int * numer as int * 1000 / denom as int;
    if exact > u64::MAX {
        u64::MAX
    } else {
        exact as u64
    }
}

/// Computes a track's duration from container metadata: `frames` ticks,
/// each `numer / denom` seconds long.
pub fn duration_ms_from_time_base(frames: u64, numer: u32, denom: u32) -> (r: u64)
    requires
        denom > 0,
    ensures
        r == spec_duration_ms(frames, numer, denom),
{
    proof {
        lemma_mul_upper_bound(frames as int, u64::MAX as int, numer as int, u32::MAX as int);
        lemma_mul_upper_bound(frames as int * numer as int, u64::MAX as int * u32::MAX as int,
            1000int, 1000int);
    }
    let product: u128 = frames as u128 * numer as u128 * 1000;
    let exact: u128 = product / denom as u128;
    if exact > u64::MAX as u128 {
        u64::MAX
    } else {
        exact as u64
    }
}

} // verus!
