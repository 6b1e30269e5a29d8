use stoppable_source::buffer::SamplesBuffer;
use stoppable_source::source::Duration;
use stoppable_source::source::SeekError;
use stoppable_source::source::Source;
use stoppable_source::stoppable::stoppable;

fn buffer_12345() -> SamplesBuffer {
    SamplesBuffer::new(vec![1, 2, 3, 4, 5], 2, 44100, true)
}

#[test]
fn scenario_pull_stop_pull() {
    let mut s = stoppable(buffer_12345());
    assert_eq!(s.current_span_len(), Some(5));
    assert_eq!(s.next(), Some(1));
    assert_eq!(s.next(), Some(2));
    s.stop();
    assert_eq!(s.next(), None);
    assert_eq!(s.next(), None);
    assert_eq!(s.next(), None);
    assert_eq!(s.channels(), 2);
    assert_eq!(s.sample_rate(), 44100);
}

#[test]
fn stop_cuts_off_production() {
    let mut wrapped = stoppable(buffer_12345());
    let mut bare = buffer_12345();
    assert_eq!(wrapped.next(), bare.next());
    assert_eq!(wrapped.next(), bare.next());
    wrapped.stop();
    for _ in 0..3 {
        assert_eq!(wrapped.next(), None);
        assert!(bare.next().is_some());
    }
    assert_eq!(bare.next(), None);
}

#[test]
fn stop_on_empty_source() {
    let mut s = stoppable(SamplesBuffer::new(vec![], 1, 8000, true));
    assert_eq!(s.next(), None);
    s.stop();
    assert_eq!(s.next(), None);
    assert_eq!(s.current_span_len(), Some(0));
}

#[test]
fn metadata_transparent() {
    let mut s = stoppable(buffer_12345());
    assert_eq!(s.channels(), s.inner().channels());
    assert_eq!(s.sample_rate(), s.inner().sample_rate());
    assert_eq!(s.current_span_len(), s.inner().current_span_len());
    assert_eq!(s.total_duration(), s.inner().total_duration());
    assert_eq!(s.size_hint(), s.inner().size_hint());
    s.next();
    assert_eq!(s.current_span_len(), s.inner().current_span_len());
    assert_eq!(s.size_hint(), s.inner().size_hint());
    s.stop();
    assert_eq!(s.channels(), s.inner().channels());
    assert_eq!(s.sample_rate(), s.inner().sample_rate());
    assert_eq!(s.current_span_len(), s.inner().current_span_len());
    assert_eq!(s.total_duration(), s.inner().total_duration());
    assert_eq!(s.size_hint(), s.inner().size_hint());
}

#[test]
fn span_len_still_forwards_after_stop() {
    let mut s = stoppable(buffer_12345());
    s.next();
    s.next();
    s.stop();
    // The wrapper yields nothing any more, yet metadata is never cached or
    // adjusted: it still reports the inner source's three pending samples.
    assert_eq!(s.next(), None);
    assert_eq!(s.current_span_len(), Some(3));
    assert_eq!(s.size_hint(), (3, Some(3)));
}

#[test]
fn seek_transparent_success() {
    let mut wrapped = stoppable(SamplesBuffer::new(vec![1, 2, 3, 4, 5], 1, 2, true));
    let mut bare = SamplesBuffer::new(vec![1, 2, 3, 4, 5], 1, 2, true);
    let pos = Duration::from_secs(1);
    assert_eq!(wrapped.try_seek(pos), bare.try_seek(pos));
    assert_eq!(wrapped.next(), bare.next());
    assert_eq!(wrapped.next(), bare.next());
}

#[test]
fn seek_transparent_error() {
    let mut wrapped = stoppable(SamplesBuffer::new(vec![1, 2, 3], 1, 1, true));
    let mut bare = SamplesBuffer::new(vec![1, 2, 3], 1, 1, true);
    let pos = Duration::from_secs(60);
    assert_eq!(wrapped.try_seek(pos), bare.try_seek(pos));
    assert_eq!(wrapped.next(), bare.next());
}

#[test]
fn seek_does_not_resume_after_stop() {
    let mut s = stoppable(SamplesBuffer::new(vec![1, 2, 3], 1, 1, true));
    s.stop();
    assert_eq!(s.try_seek(Duration::from_secs(1)), Ok(()));
    assert_eq!(s.next(), None);
    // The seek still reached the inner source.
    assert_eq!(s.current_span_len(), Some(2));
}

#[test]
fn stop_idempotent() {
    let mut once = stoppable(buffer_12345());
    let mut twice = stoppable(buffer_12345());
    once.next();
    twice.next();
    once.stop();
    twice.stop();
    twice.stop();
    assert_eq!(once.next(), twice.next());
    assert_eq!(once.next(), twice.next());
    assert_eq!(once.current_span_len(), twice.current_span_len());
    assert_eq!(once.size_hint(), twice.size_hint());
}

#[test]
fn inner_does_not_alter_state() {
    let mut s = stoppable(buffer_12345());
    s.next();
    for _ in 0..4 {
        let _ = s.inner();
    }
    assert_eq!(s.next(), Some(2));
    assert_eq!(s.current_span_len(), Some(3));
}

#[test]
fn inner_mut_bypasses_the_wrapper() {
    let mut s = stoppable(SamplesBuffer::new(vec![1, 2, 3, 4, 5], 1, 1, true));
    assert_eq!(s.next(), Some(1));
    assert_eq!(s.inner_mut().try_seek(Duration::from_secs(3)), Ok(()));
    assert_eq!(s.next(), Some(4));
}

#[test]
fn into_inner_continues_where_the_wrapper_stood() {
    let mut s = stoppable(buffer_12345());
    assert_eq!(s.next(), Some(1));
    assert_eq!(s.next(), Some(2));
    let mut inner = s.into_inner();
    assert_eq!(inner.next(), Some(3));
    assert_eq!(inner.next(), Some(4));
    assert_eq!(inner.next(), Some(5));
    assert_eq!(inner.next(), None);
}

#[test]
fn into_inner_discards_the_stop() {
    let mut s = stoppable(buffer_12345());
    s.next();
    s.stop();
    assert_eq!(s.next(), None);
    let mut inner = s.into_inner();
    // Stop semantics no longer apply: the source yields on its own.
    assert_eq!(inner.next(), Some(2));
}

#[test]
fn total_duration_formula() {
    // 10 samples over 2 channels are 5 frames; at 4 frames per second that
    // is 1 second and a remainder of 1 frame, i.e. a quarter second.
    let s = stoppable(SamplesBuffer::new(vec![0; 10], 2, 4, false));
    assert_eq!(s.total_duration(), Some(Duration::new(1, 250_000_000)));
}

#[test]
fn total_duration_truncates_partial_frame() {
    // 3 samples over 2 channels are 1 whole frame; at 1 frame per second
    // that is exactly 1 second.
    let s = stoppable(SamplesBuffer::new(vec![0; 3], 2, 1, false));
    assert_eq!(s.total_duration(), Some(Duration::new(1, 0)));
}

#[test]
fn seek_not_supported_is_forwarded() {
    let mut s = stoppable(SamplesBuffer::new(vec![10, 20, 30], 1, 8000, false));
    assert_eq!(s.next(), Some(10));
    assert_eq!(s.try_seek(Duration::from_secs(1)), Err(SeekError::NotSupported));
    // The failed seek moved nothing: the next unconsumed sample follows.
    assert_eq!(s.next(), Some(20));
}

#[test]
fn seek_out_of_range_is_forwarded() {
    let mut s = stoppable(SamplesBuffer::new(vec![1, 2, 3], 1, 1, true));
    assert_eq!(s.next(), Some(1));
    assert_eq!(s.try_seek(Duration::from_secs(4)), Err(SeekError::OutOfRange));
    assert_eq!(s.next(), Some(2));
}

#[test]
fn seek_to_the_end_succeeds() {
    let mut s = stoppable(SamplesBuffer::new(vec![1, 2, 3], 1, 1, true));
    assert_eq!(s.try_seek(Duration::from_secs(3)), Ok(()));
    assert_eq!(s.size_hint(), (0, Some(0)));
    assert_eq!(s.next(), None);
}

#[test]
fn seek_truncates_to_whole_seconds() {
    let mut s = stoppable(SamplesBuffer::new(vec![1, 2, 3, 4, 5], 1, 2, true));
    assert_eq!(s.try_seek(Duration::new(1, 500_000_000)), Ok(()));
    // One whole second at 2 samples per second lands on index 2.
    assert_eq!(s.next(), Some(3));
}

#[test]
fn duration_constructors() {
    let d = Duration::new(7, 125_000_000);
    assert_eq!(d.secs, 7);
    assert_eq!(d.nanos, 125_000_000);
    let w = Duration::from_secs(9);
    assert_eq!(w.secs, 9);
    assert_eq!(w.nanos, 0);
}
