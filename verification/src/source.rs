//! The source abstraction: a lazy stream of audio samples with metadata.

use vstd::prelude::*;

verus! {

/// Number of interleaved channels in a stream.
pub type ChannelCount = u16;

/// Samples per second, per channel.
pub type SampleRate = u32;

/// A span of time, used for total durations and seek targets.
///
/// `nanos` is the sub-second part and is kept below one billion by every
/// constructor of this crate.
#[derive(Clone, Copy, Debug, PartialEq, Eq, Structural)]
pub struct Duration {
    pub secs: u64,
    pub nanos: u32,
}

pub const NANOS_PER_SEC: u32 = 1_000_000_000;

impl Duration {
    /// Builds a duration from whole seconds and a sub-second part.
    pub fn new(secs: u64, nanos: u32) -> (r: Duration)
        requires
            nanos < NANOS_PER_SEC,
        ensures
            r.secs == secs,
            r.nanos == nanos,
    {
        Duration { secs, nanos }
    }

    /// Builds a duration of whole seconds.
    pub fn from_secs(secs: u64) -> (r: Duration)
        ensures
            r.secs == secs,
            r.nanos == 0,
    {
        Duration { secs, nanos: 0 }
    }
}

/// Why a seek was refused.  The wrapper types of this crate forward these
/// verbatim from the inner source; they never produce one of their own.
#[derive(Clone, Copy, Debug, PartialEq, Eq, Structural)]
pub enum SeekError {
    /// The underlying medium does not support repositioning.
    NotSupported,
    /// The target position lies beyond the end of the stream.
    OutOfRange,
}

/// What one pull may do: on an exhausted source it returns `None` and
/// changes nothing; otherwise it yields the front sample and removes it.
pub open spec fn pull_step<S: Source>(pre: S, post: S, r: Option<S::Item>) -> bool {
    &&& pre.samples().len() == 0 ==> (r is None && post == pre)
    &&& pre.samples().len() > 0 ==> (r == Some(pre.samples()[0]) && post.samples()
        == pre.samples().drop_first())
}

/// A producer of audio samples.
///
/// The stream is modelled by the spec function [`Source::samples`]: the
/// sequence of samples the source will still yield, in order.  Each pull
/// ([`Source::next`]) removes the front of that sequence; an exhausted
/// source stays exhausted and unchanged.  The metadata queries are pure and
/// each is pinned to its own spec function.  Repositioning is modelled by
/// the relation [`Source::seek_spec`], which each implementor defines to
/// say exactly which outcomes and successor states a seek may have.
pub trait Source: Sized {
    /// The sample representation produced by this source.
    type Item;

    /// The samples this source will still yield, front first.
    spec fn samples(&self) -> Seq<Self::Item>;

    /// The implementor's well-formedness: established by its constructors
    /// and preserved by every operation below.
    spec fn valid(&self) -> bool;

    /// The channel count this source currently reports.
    spec fn channels_spec(&self) -> ChannelCount;

    /// The sample rate this source currently reports.
    spec fn sample_rate_spec(&self) -> SampleRate;

    /// The advisory length of the current span, `None` when unknown.
    spec fn current_span_len_spec(&self) -> Option<usize>;

    /// The advisory total duration, `None` when unknown.
    spec fn total_duration_spec(&self) -> Option<Duration>;

    /// The advisory size estimate: a lower bound and an optional upper bound
    /// on the number of samples still to come.
    spec fn size_hint_spec(&self) -> (usize, Option<usize>);

    /// The repositioning relation: `seek_spec(pos, post, r)` holds exactly
    /// when seeking to `pos` from this state may end in state `post` with
    /// outcome `r`.
    spec fn seek_spec(&self, pos: Duration, post: Self, r: Result<(), SeekError>) -> bool;

    /// Pulls one sample: the front of [`Source::samples`], or `None` once
    /// the stream is exhausted.  An exhausted source is left unchanged, so
    /// repeated pulls keep returning `None`.
    fn next(&mut self) -> (r: Option<Self::Item>)
        requires
            old(self).valid(),
        ensures
            final(self).valid(),
            old(self).samples().len() == 0 ==> (r is None && *final(self) == *old(self)),
            old(self).samples().len() > 0 ==> (r == Some(old(self).samples()[0])
                && final(self).samples() == old(self).samples().drop_first()),
    ;

    /// Reports the advisory size estimate.
    fn size_hint(&self) -> (r: (usize, Option<usize>))
        requires
            self.valid(),
        ensures
            r == self.size_hint_spec(),
    ;

    /// Reports the advisory length of the current span.
    fn current_span_len(&self) -> (r: Option<usize>)
        requires
            self.valid(),
        ensures
            r == self.current_span_len_spec(),
    ;

    /// Reports the number of interleaved channels.
    fn channels(&self) -> (r: ChannelCount)
        requires
            self.valid(),
        ensures
            r == self.channels_spec(),
    ;

    /// Reports the sample rate.
    fn sample_rate(&self) -> (r: SampleRate)
        requires
            self.valid(),
        ensures
            r == self.sample_rate_spec(),
    ;

    /// Reports the advisory total duration.
    fn total_duration(&self) -> (r: Option<Duration>)
        requires
            self.valid(),
        ensures
            r == self.total_duration_spec(),
    ;

    /// Repositions the stream to `pos`.  Outcome and successor state are
    /// exactly those admitted by [`Source::seek_spec`].
    fn try_seek(&mut self, pos: Duration) -> (r: Result<(), SeekError>)
        requires
            old(self).valid(),
        ensures
            final(self).valid(),
            old(self).seek_spec(pos, *final(self), r),
    ;
}

} // verus!
