use car_gst_plugins::frame::FrameData;
use car_gst_plugins::frame::PullStep;

#[test]
fn latest_wins_buffer() {
    // Pushing A then B with no pop in between: try_pop yields B and A is
    // unrecoverable.
    let mut fd: FrameData<&str> = FrameData::new();
    fd.add_frame("A");
    fd.add_frame("B");
    assert_eq!(fd.pop_frame(), Some("B"));
    assert_eq!(fd.pop_frame(), None);
}

#[test]
fn frame_counter_counts_pushes() {
    let mut fd: FrameData<u32> = FrameData::new();
    assert_eq!(fd.add_frame(10), 0);
    assert_eq!(fd.add_frame(11), 1);
    let _ = fd.pop_frame();
    assert_eq!(fd.add_frame(12), 2);
    assert_eq!(fd.frame_counter, 3);
}

#[test]
fn latency_ema_seeds_then_smooths() {
    // First span seeds the estimate; the second folds in with weight 0.8:
    // 100 * 0.2 + 200 * 0.8 = 180.
    let mut fd: FrameData<()> = FrameData::new();
    assert_eq!(fd.get_latency(), None);
    fd.update_latency(100);
    assert_eq!(fd.get_latency(), Some(100));
    fd.update_latency(200);
    assert_eq!(fd.get_latency(), Some(180));
    // Truncating integer arithmetic: (2 * 180 + 8 * 7) / 10 = 41.
    fd.update_latency(7);
    assert_eq!(fd.get_latency(), Some(41));
}

#[test]
fn epoch_is_established_once() {
    // Two callers with different timestamps: the first wins and both
    // observe the same recorded value.
    let mut fd: FrameData<()> = FrameData::new();
    assert_eq!(fd.start_timestamp(1000), 1000);
    assert_eq!(fd.start_timestamp(2000), 1000);
    assert_eq!(fd.epoch_nanos, Some(1000));
    assert_eq!(fd.start_timestamp(500), 1000);
}

#[test]
fn pull_step_drains_then_waits() {
    let mut fd: FrameData<u8> = FrameData::new();
    // Live and empty: the consumer should block and re-check.
    assert!(matches!(fd.pull_step(), PullStep::Wait));
    fd.add_frame(9);
    match fd.pull_step() {
        PullStep::Deliver(v) => assert_eq!(v, 9),
        _ => panic!("expected a frame"),
    }
    assert!(fd.slot.is_none());
}

#[test]
fn pull_step_surfaces_end_of_stream_after_close() {
    // A closed buffer still drains its pending frame, then reports
    // end-of-stream instead of asking the consumer to block.
    let mut fd: FrameData<u8> = FrameData::new();
    fd.add_frame(1);
    fd.close();
    assert!(matches!(fd.pull_step(), PullStep::Deliver(1)));
    assert!(matches!(fd.pull_step(), PullStep::EndOfStream));
    assert!(matches!(fd.pull_step(), PullStep::EndOfStream));
}

#[test]
fn default_is_empty_and_live() {
    let fd: FrameData<u64> = FrameData::default();
    assert!(fd.slot.is_none());
    assert_eq!(fd.frame_counter, 0);
    assert_eq!(fd.epoch_nanos, None);
    assert_eq!(fd.latency_nanos, None);
    assert!(!fd.closed);
}
