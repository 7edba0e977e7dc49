use muro_core::source::{
    duration_ms_from_time_base, resolve_duration, DecodeBuffer, DecodeStep, PacketOutcome,
};

#[test]
fn prebuffer_goal_is_one_and_a_half_seconds() {
    let buf = DecodeBuffer::new(44_100, 2);
    assert_eq!(buf.prebuffer_samples, 132_300);
    assert!(!buf.is_exhausted);
    assert_eq!(buf.buffered(), 0);
}

#[test]
fn prebuffer_goal_is_at_least_one_sample() {
    let buf = DecodeBuffer::new(0, 0);
    assert_eq!(buf.prebuffer_samples, 1);
}

#[test]
fn samples_come_out_in_decode_order() {
    let mut buf = DecodeBuffer::new(2, 1);
    assert_eq!(buf.absorb(PacketOutcome::Samples(vec![1, 2])), DecodeStep::Produced);
    assert_eq!(buf.absorb(PacketOutcome::Samples(vec![3])), DecodeStep::Produced);
    assert_eq!(buf.pop_sample(), Some(1));
    assert_eq!(buf.pop_sample(), Some(2));
    assert_eq!(buf.pop_sample(), Some(3));
    assert_eq!(buf.pop_sample(), None);
}

#[test]
fn foreign_and_corrupt_packets_are_skipped() {
    let mut buf = DecodeBuffer::new(2, 1);
    buf.absorb(PacketOutcome::Samples(vec![5]));
    assert_eq!(buf.absorb(PacketOutcome::WrongTrack), DecodeStep::TryAgain);
    assert_eq!(buf.absorb(PacketOutcome::CorruptPacket), DecodeStep::TryAgain);
    assert_eq!(buf.buffered(), 1);
    assert!(!buf.is_exhausted);
}

#[test]
fn end_of_stream_is_exhaustion_not_an_error() {
    let mut buf = DecodeBuffer::new(2, 1);
    assert_eq!(buf.absorb(PacketOutcome::EndOfStream), DecodeStep::Exhausted);
    assert!(buf.is_exhausted);
    assert!(!buf.needs_decode());
    assert_eq!(buf.pop_sample(), None);
}

#[test]
fn read_failure_is_surfaced_once_then_acts_exhausted() {
    let mut buf = DecodeBuffer::new(2, 1);
    assert_eq!(buf.absorb(PacketOutcome::ReadError), DecodeStep::Failed);
    assert!(buf.is_exhausted);
    assert!(!buf.needs_decode());
}

#[test]
fn pull_asks_for_decode_only_when_empty_and_live() {
    let mut buf = DecodeBuffer::new(2, 1);
    assert!(buf.needs_decode());
    buf.absorb(PacketOutcome::Samples(vec![9]));
    assert!(!buf.needs_decode());
    buf.pop_sample();
    assert!(buf.needs_decode());
}

#[test]
fn prebuffer_fills_at_the_goal() {
    let mut buf = DecodeBuffer::new(2, 1);
    assert_eq!(buf.prebuffer_samples, 3);
    buf.absorb(PacketOutcome::Samples(vec![1, 2]));
    assert!(!buf.prebuffer_filled());
    buf.absorb(PacketOutcome::Samples(vec![3]));
    assert!(buf.prebuffer_filled());
}

#[test]
fn seek_clears_samples_and_exhaustion() {
    let mut buf = DecodeBuffer::new(2, 1);
    buf.absorb(PacketOutcome::Samples(vec![1, 2, 3]));
    buf.absorb(PacketOutcome::EndOfStream);
    buf.clear_for_seek();
    assert_eq!(buf.buffered(), 0);
    assert!(!buf.is_exhausted);
    assert!(buf.needs_decode());
}

#[test]
fn duration_prefers_container_over_hint() {
    assert_eq!(resolve_duration(Some(183_500), 180_000), 183_500);
    assert_eq!(resolve_duration(None, 180_000), 180_000);
}

#[test]
fn duration_follows_the_time_base() {
    // 8 820 000 frames at 1/44100 s per frame are 200 s.
    assert_eq!(duration_ms_from_time_base(8_820_000, 1, 44_100), 200_000);
    // A coarse 1/1000 time base counts milliseconds directly.
    assert_eq!(duration_ms_from_time_base(183_500, 1, 1_000), 183_500);
    assert_eq!(duration_ms_from_time_base(0, 1, 44_100), 0);
    // A saturating result rather than an overflow.
    assert_eq!(duration_ms_from_time_base(u64::MAX, u32::MAX, 1), u64::MAX);
}
