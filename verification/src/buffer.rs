//! A simple in-memory source: a buffer of samples with fixed metadata.

use vstd::prelude::*;

use crate::source::ChannelCount;
use crate::source::Duration;
use crate::source::SampleRate;
use crate::source::SeekError;
use crate::source::Source;
use crate::source::NANOS_PER_SEC;

verus! {

/// An in-memory producer: yields the samples of a buffer in order, as one
/// span, with a fixed channel count and sample rate.
///
/// Its state is modelled by [`SamplesBuffer::buf`] (the whole buffer) and
/// [`SamplesBuffer::position`] (the index of the next sample to yield);
/// [`lemma_buffer_model`] ties the source capabilities to that model.
///
/// Seeking, when enabled, is truncated to whole seconds: the target index
/// is `secs * rate * channels`, and a target past the end of the buffer is
/// refused with [`SeekError::OutOfRange`].  With seeking disabled every
/// seek fails with [`SeekError::NotSupported`] and leaves the buffer
/// untouched.
#[derive(Clone, Debug)]
pub struct SamplesBuffer {
    data: Vec<i16>,
    pos: usize,
    channels: ChannelCount,
    rate: SampleRate,
    seekable: bool,
}

impl SamplesBuffer {
    /// The whole sample buffer, consumed part included.
    pub closed spec fn buf(&self) -> Seq<i16> {
        self.data@
    }

    /// The index of the next sample to yield.
    pub closed spec fn position(&self) -> int {
        self.pos as int
    }

    /// Whether seeking is enabled.
    pub closed spec fn is_seekable(&self) -> bool {
        self.seekable
    }

    /// The sample index a seek to `pos` aims at: whole seconds times
    /// samples per second, sub-second part truncated.
    pub open spec fn seek_target(&self, pos: Duration) -> int {
        (pos.secs as int) * (self.sample_rate_spec() as int) * (self.channels_spec() as int)
    }

    /// The duration of the whole buffer: its frame count (sample count per
    /// channel, truncated) over the sample rate, split into whole seconds
    /// and nanoseconds.
    pub open spec fn buffer_duration(&self) -> Duration {
        Duration {
            secs: (((self.buf().len() as int) / (self.channels_spec() as int)) / (
            self.sample_rate_spec() as int)) as u64,
            nanos: (((((self.buf().len() as int) / (self.channels_spec() as int)) % (
            self.sample_rate_spec() as int)) * (NANOS_PER_SEC as int)) / (
            self.sample_rate_spec() as int)) as u32,
        }
    }

    /// Builds a buffer positioned at its first sample.
    pub fn new(data: Vec<i16>, channels: ChannelCount, rate: SampleRate, seekable: bool) -> (r:
        SamplesBuffer)
        requires
            1 <= channels,
            1 <= rate,
        ensures
            r.buf() == data@,
            r.position() == 0,
            r.channels_spec() == channels,
            r.sample_rate_spec() == rate,
            r.is_seekable() == seekable,
    {
        SamplesBuffer { data, pos: 0, channels, rate, seekable }
    }
}

/// Law: how a well-formed buffer's source capabilities read off its model.
/// The pending samples are the buffer from the position on, and span
/// length, size estimate and total duration follow their formulas.
pub proof fn lemma_buffer_model(s: SamplesBuffer)
    requires
        s.valid(),
    ensures
        s.samples() == s.buf().subrange(s.position(), s.buf().len() as int),
        s.samples().len() == s.buf().len() - s.position(),
        s.current_span_len_spec() == Some((s.buf().len() - s.position()) as usize),
        s.size_hint_spec() == ((s.buf().len() - s.position()) as usize, Some(
            (s.buf().len() - s.position()) as usize,
        )),
        s.total_duration_spec() == Some(s.buffer_duration()),
{
}

/// Law: what a seek outcome on a buffer means.  With seeking disabled the
/// outcome is `NotSupported` and the buffer is untouched; with a target
/// past the end it is `OutOfRange` and the buffer is untouched; otherwise
/// the seek succeeds and only the position changes, to the target index.
pub proof fn lemma_buffer_seek(
    s: SamplesBuffer,
    pos: Duration,
    post: SamplesBuffer,
    r: Result<(), SeekError>,
)
    requires
        s.seek_spec(pos, post, r),
    ensures
        !s.is_seekable() ==> (r == Err::<(), SeekError>(SeekError::NotSupported) && post == s),
        s.is_seekable() && s.seek_target(pos) > s.buf().len() ==> (r == Err::<(), SeekError>(
            SeekError::OutOfRange,
        ) && post == s),
        s.is_seekable() && s.seek_target(pos) <= s.buf().len() ==> (r == Ok::<(), SeekError>(())
            && post.buf() == s.buf() && post.position() == s.seek_target(pos)
            && post.channels_spec() == s.channels_spec() && post.sample_rate_spec()
            == s.sample_rate_spec() && post.is_seekable() == s.is_seekable()),
{
    let ghost sec: int = pos.secs as int;
    let ghost ra: int = s.sample_rate_spec() as int;
    let ghost ch: int = s.channels_spec() as int;
    assert(0 <= sec * ra * ch) by (nonlinear_arith)
        requires
            0 <= sec,
            0 <= ra,
            0 <= ch,
    ;
    vstd::std_specs::vec::axiom_spec_len(&s.data);
}

impl Source for SamplesBuffer {
    type Item = i16;

    /// Well-formed when the position is inside the buffer and channel
    /// count and rate are at least one.
    open spec fn valid(&self) -> bool {
        self.position() <= self.buf().len() && 1 <= self.channels_spec() && 1
            <= self.sample_rate_spec()
    }

    closed spec fn samples(&self) -> Seq<i16> {
        self.data@.subrange(self.pos as int, self.data@.len() as int)
    }

    closed spec fn channels_spec(&self) -> ChannelCount {
        self.channels
    }

    closed spec fn sample_rate_spec(&self) -> SampleRate {
        self.rate
    }

    closed spec fn current_span_len_spec(&self) -> Option<usize> {
        Some((self.data@.len() - self.pos) as usize)
    }

    closed spec fn total_duration_spec(&self) -> Option<Duration> {
        Some(self.buffer_duration())
    }

    closed spec fn size_hint_spec(&self) -> (usize, Option<usize>) {
        ((self.data@.len() - self.pos) as usize, Some((self.data@.len() - self.pos) as usize))
    }

    closed spec fn seek_spec(&self, pos: Duration, post: Self, r: Result<(), SeekError>) -> bool {
        if !self.seekable {
            r == Err::<(), SeekError>(SeekError::NotSupported) && post == *self
        } else if self.seek_target(pos) > self.data@.len() {
            r == Err::<(), SeekError>(SeekError::OutOfRange) && post == *self
        } else {
            r == Ok::<(), SeekError>(()) && post == (SamplesBuffer {
                pos: self.seek_target(pos) as usize,
                ..*self
            })
        }
    }

    fn next(&mut self) -> (r: Option<i16>)
        ensures
            final(self).buf() == old(self).buf(),
            final(self).channels_spec() == old(self).channels_spec(),
            final(self).sample_rate_spec() == old(self).sample_rate_spec(),
            final(self).is_seekable() == old(self).is_seekable(),
            old(self).position() < old(self).buf().len() ==> final(self).position() == old(
                self,
            ).position() + 1,
            old(self).position() >= old(self).buf().len() ==> final(self).position() == old(
                self,
            ).position(),
    {
        if self.pos < self.data.len() {
            let s = self.data[self.pos];
            self.pos = self.pos + 1;
            proof {
                assert(self.samples() =~= old(self).samples().drop_first());
            }
            Some(s)
        } else {
            None
        }
    }

    fn size_hint(&self) -> (r: (usize, Option<usize>)) {
        let n = self.data.len() - self.pos;
        (n, Some(n))
    }

    fn current_span_len(&self) -> (r: Option<usize>) {
        Some(self.data.len() - self.pos)
    }

    fn channels(&self) -> (r: ChannelCount) {
        self.channels
    }

    fn sample_rate(&self) -> (r: SampleRate) {
        self.rate
    }

    fn total_duration(&self) -> (r: Option<Duration>) {
        let frames: u64 = (self.data.len() as u64) / (self.channels as u64);
        let secs: u64 = frames / (self.rate as u64);
        let rem: u64 = frames % (self.rate as u64);
        proof {
            assert(rem < self.rate as u64);
            assert(rem * (NANOS_PER_SEC as u64) <= 0xFFFF_FFFFu64 * (NANOS_PER_SEC as u64));
        }
        let nanos: u64 = rem * (NANOS_PER_SEC as u64) / (self.rate as u64);
        proof {
            assert(nanos < NANOS_PER_SEC as u64) by (nonlinear_arith)
                requires
                    nanos == (rem as int) * (NANOS_PER_SEC as int) / (self.rate as int),
                    rem < self.rate as u64,
                    1 <= self.rate,
            ;
        }
        Some(Duration { secs, nanos: nanos as u32 })
    }

    fn try_seek(&mut self, pos: Duration) -> (r: Result<(), SeekError>) {
        if !self.seekable {
            return Err(SeekError::NotSupported);
        }
        let ghost ra: int = self.rate as int;
        let ghost ch: int = self.channels as int;
        let ghost sec: int = pos.secs as int;
        proof {
            assert(0 <= ra * ch && ra * ch <= (u32::MAX as int) * (u16::MAX as int))
                by (nonlinear_arith)
                requires
                    0 <= ra <= u32::MAX as int,
                    0 <= ch <= u16::MAX as int,
            ;
        }
        let per_sec: u128 = (self.rate as u128) * (self.channels as u128);
        proof {
            assert(0 <= sec * (ra * ch) && sec * (ra * ch) <= (u64::MAX as int) * ((
            u32::MAX as int) * (u16::MAX as int))) by (nonlinear_arith)
                requires
                    0 <= sec <= u64::MAX as int,
                    0 <= ra * ch <= (u32::MAX as int) * (u16::MAX as int),
            ;
            assert(sec * ra * ch == sec * (ra * ch)) by (nonlinear_arith);
            assert(old(self).seek_target(pos) == sec * ra * ch);
        }
        let target: u128 = (pos.secs as u128) * per_sec;
        if target > (self.data.len() as u128) {
            return Err(SeekError::OutOfRange);
        }
        self.pos = target as usize;
        Ok(())
    }
}

} // verus!
