//! A decorator that can halt sample production from the outside.

use vstd::prelude::*;

use crate::source::ChannelCount;
use crate::source::Duration;
use crate::source::SampleRate;
use crate::source::pull_step;
use crate::source::SeekError;
use crate::source::Source;

verus! {

/// Wraps `source` so that its playback can later be halted with
/// [`Stoppable::stop`].  The wrapper starts in the running state.
pub fn stoppable<I>(source: I) -> (r: Stoppable<I>)
    ensures
        r.spec_inner() == source,
        !r.is_stopped(),
{
    Stoppable { input: source, stopped: false }
}

/// A source decorator with exactly one extra behaviour: an external caller
/// may halt sample production at an arbitrary point, without cooperation
/// from the producer or the consumer.
///
/// The wrapper is a two-state machine, Running or Stopped, with a single
/// one-way edge taken by [`Stoppable::stop`].  While running it is fully
/// transparent; once stopped it yields no further samples, while all
/// metadata queries and seeks still forward verbatim to the inner source.
#[derive(Clone, Debug)]
pub struct Stoppable<I> {
    input: I,
    stopped: bool,
}

impl<I> Stoppable<I> {
    /// The wrapped source.
    pub closed spec fn spec_inner(&self) -> I {
        self.input
    }

    /// Whether production has been halted.
    pub closed spec fn is_stopped(&self) -> bool {
        self.stopped
    }

    /// The state this wrapper moves to when stopped: same inner source,
    /// flag set.
    pub closed spec fn stopped_form(&self) -> Stoppable<I> {
        Stoppable { input: self.input, stopped: true }
    }

    /// Halts sample production, permanently for the life of this wrapper.
    /// The inner source is left untouched.
    pub fn stop(&mut self)
        ensures
            *final(self) == old(self).stopped_form(),
            final(self).is_stopped(),
            final(self).spec_inner() == old(self).spec_inner(),
    {
        self.stopped = true;
    }

    /// Returns a read-only view of the inner source.
    pub fn inner(&self) -> (r: &I)
        ensures
            *r == self.spec_inner(),
    {
        &self.input
    }

    /// Returns a mutable view of the inner source.  The caller may mutate
    /// or reposition it directly, bypassing the wrapper's own forwarding;
    /// the stopped flag is not consulted and not changed.
    pub fn inner_mut(&mut self) -> (r: &mut I)
        ensures
            *r == old(self).spec_inner(),
            final(self).spec_inner() == *final(r),
            final(self).is_stopped() == old(self).is_stopped(),
    {
        &mut self.input
    }

    /// Consumes the wrapper and hands the inner source back.  The stopped
    /// flag is discarded with the wrapper: the returned source behaves as
    /// it would have on its own.
    pub fn into_inner(self) -> (r: I)
        ensures
            r == self.spec_inner(),
    {
        self.input
    }
}

/// Law: a wrapper state is determined by its inner source and its flag.
/// Two wrappers that agree on both behave identically from then on.
pub proof fn lemma_state_determined<I>(a: Stoppable<I>, b: Stoppable<I>)
    requires
        a.spec_inner() == b.spec_inner(),
        a.is_stopped() == b.is_stopped(),
    ensures
        a == b,
{
}

/// Law (idempotent stop): stopping an already stopped wrapper changes
/// nothing, so two `stop` calls in a row leave the same state — and hence
/// the same subsequent pull behaviour — as one.
pub proof fn lemma_stop_idempotent<I>(s: Stoppable<I>)
    ensures
        s.stopped_form().stopped_form() == s.stopped_form(),
        s.stopped_form().is_stopped(),
        s.stopped_form().spec_inner() == s.spec_inner(),
{
}

/// Law (stop cuts off production): a stopped wrapper's sample stream is
/// empty, whatever the inner source would still have produced.  Together
/// with the contract of [`Source::next`] this means every subsequent pull
/// returns `None` and leaves the wrapper unchanged.
pub proof fn lemma_stop_cuts_off<I: Source>(s: Stoppable<I>)
    requires
        s.is_stopped(),
    ensures
        s.samples() == Seq::<I::Item>::empty(),
{
}

/// Law (transparency while running): until `stop` is called the wrapper
/// yields exactly the inner source's samples.
pub proof fn lemma_running_transparent<I: Source>(s: Stoppable<I>)
    requires
        !s.is_stopped(),
    ensures
        s.samples() == s.spec_inner().samples(),
{
}

/// Law (metadata transparency): every metadata value the wrapper reports —
/// channels, sample rate, current span length, total duration, size
/// estimate — equals the inner source's value at the same point, whether
/// or not the wrapper has been stopped.
pub proof fn lemma_metadata_transparent<I: Source>(s: Stoppable<I>)
    ensures
        s.channels_spec() == s.spec_inner().channels_spec(),
        s.sample_rate_spec() == s.spec_inner().sample_rate_spec(),
        s.current_span_len_spec() == s.spec_inner().current_span_len_spec(),
        s.total_duration_spec() == s.spec_inner().total_duration_spec(),
        s.size_hint_spec() == s.spec_inner().size_hint_spec(),
{
}

/// Law (seek transparency): a seek on the wrapper has exactly the outcomes
/// and inner successor states a seek on the inner source has, and it never
/// touches the stopped flag — seeking after `stop` does not resume
/// production.
pub proof fn lemma_seek_transparent<I: Source>(
    s: Stoppable<I>,
    pos: Duration,
    post: Stoppable<I>,
    r: Result<(), SeekError>,
)
    ensures
        s.seek_spec(pos, post, r) <==> (s.spec_inner().seek_spec(pos, post.spec_inner(), r)
            && post.is_stopped() == s.is_stopped()),
{
}

impl<I: Source> Source for Stoppable<I> {
    type Item = I::Item;

    /// The wrapper is well-formed exactly when its inner source is; the
    /// flag has no bearing on it.
    open spec fn valid(&self) -> bool {
        self.spec_inner().valid()
    }

    /// Empty once stopped; the inner source's stream while running.
    closed spec fn samples(&self) -> Seq<I::Item> {
        if self.stopped {
            Seq::empty()
        } else {
            self.input.samples()
        }
    }

    closed spec fn channels_spec(&self) -> ChannelCount {
        self.input.channels_spec()
    }

    closed spec fn sample_rate_spec(&self) -> SampleRate {
        self.input.sample_rate_spec()
    }

    closed spec fn current_span_len_spec(&self) -> Option<usize> {
        self.input.current_span_len_spec()
    }

    closed spec fn total_duration_spec(&self) -> Option<Duration> {
        self.input.total_duration_spec()
    }

    closed spec fn size_hint_spec(&self) -> (usize, Option<usize>) {
        self.input.size_hint_spec()
    }

    /// Forwards the inner relation; the flag is carried over unchanged.
    closed spec fn seek_spec(&self, pos: Duration, post: Self, r: Result<(), SeekError>) -> bool {
        self.input.seek_spec(pos, post.input, r) && post.stopped == self.stopped
    }

    /// The stopped check comes first: once stopped, the inner source does
    /// no work at all and the wrapper is left untouched.
    fn next(&mut self) -> (r: Option<I::Item>)
        ensures
            final(self).is_stopped() == old(self).is_stopped(),
            old(self).is_stopped() ==> (r is None && *final(self) == *old(self)),
            !old(self).is_stopped() ==> pull_step(
                old(self).spec_inner(),
                final(self).spec_inner(),
                r,
            ),
    {
        if self.stopped {
            None
        } else {
            self.input.next()
        }
    }

    /// Forwarded verbatim: the estimate is advisory and is deliberately not
    /// adjusted for the possibility of an early stop.
    fn size_hint(&self) -> (r: (usize, Option<usize>)) {
        self.input.size_hint()
    }

    fn current_span_len(&self) -> (r: Option<usize>) {
        self.input.current_span_len()
    }

    fn channels(&self) -> (r: ChannelCount) {
        self.input.channels()
    }

    fn sample_rate(&self) -> (r: SampleRate) {
        self.input.sample_rate()
    }

    fn total_duration(&self) -> (r: Option<Duration>) {
        self.input.total_duration()
    }

    /// Position and outcome forward verbatim; the stopped flag is neither
    /// consulted nor reset, so seeking after a stop does not resume.
    fn try_seek(&mut self, pos: Duration) -> (r: Result<(), SeekError>)
        ensures
            final(self).is_stopped() == old(self).is_stopped(),
            old(self).spec_inner().seek_spec(pos, final(self).spec_inner(), r),
    {
        self.input.try_seek(pos)
    }
}

} // verus!
