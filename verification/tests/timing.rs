use window_capture::timing::{
    duration_since, frame_duration, handle_frame_timing, Pacing, MAX_NANOS, NANOS_PER_SECOND,
};

#[test]
fn longest_span_is_that_of_the_standard_library() {
    assert_eq!(std::time::Duration::MAX.as_nanos(), MAX_NANOS);
    assert_eq!(std::time::Duration::from_secs(1).as_nanos(), NANOS_PER_SECOND as u128);
}

#[test]
fn frame_duration_rounds_down() {
    assert_eq!(frame_duration(60, 1), 16_666_666);
    assert_eq!(frame_duration(30, 1), 33_333_333);
    assert_eq!(frame_duration(60000, 1001), 16_683_333);
    assert_eq!(frame_duration(1, 1), 1_000_000_000);
}

#[test]
fn frame_duration_at_the_extremes() {
    assert_eq!(frame_duration(1, u32::MAX), 4_294_967_295_000_000_000);
    assert_eq!(frame_duration(u32::MAX, 1), 0);
    assert_eq!(frame_duration(30, 0), 0);
}

#[test]
fn frame_duration_meets_the_rate() {
    let cases: [(u32, u32); 4] = [(60, 1), (24000, 1001), (7, 3), (u32::MAX, u32::MAX)];
    for (num, den) in cases {
        let d: u128 = frame_duration(num, den);
        assert!(d * num as u128 <= 1_000_000_000 * den as u128);
        assert!(1_000_000_000 * (den as u128) < (d + 1) * num as u128);
    }
}

#[test]
fn time_between_points_out_of_order_is_zero() {
    assert_eq!(duration_since(10, 4), 6);
    assert_eq!(duration_since(4, 10), 0);
    assert_eq!(duration_since(4, 4), 0);
}

#[test]
fn late_frame_adds_to_the_delay() {
    let mut delay: u128 = 7;
    assert_eq!(handle_frame_timing(130, 100, &mut delay), None);
    assert_eq!(delay, 37);
}

#[test]
fn early_frame_sleeps_until_due() {
    let mut delay: u128 = 7;
    assert_eq!(handle_frame_timing(60, 100, &mut delay), Some(40));
    assert_eq!(delay, 7);
}

#[test]
fn punctual_frame_sleeps_for_nothing() {
    let mut delay: u128 = 7;
    assert_eq!(handle_frame_timing(100, 100, &mut delay), Some(0));
    assert_eq!(delay, 7);
}

#[test]
fn pacing_moves_on_by_frames() {
    let mut pacing = Pacing::new(1000, 10);
    assert!(!pacing.owes_duplicate());
    pacing.accumulated_delay = 25;
    assert!(pacing.owes_duplicate());
    pacing.record_duplicate();
    pacing.record_duplicate();
    assert!(!pacing.owes_duplicate());
    pacing.record_frame();
    assert_eq!(
        pacing,
        Pacing { next_frame_time: 1030, frame_duration: 10, accumulated_delay: 5, num_duped: 2 }
    );
}

#[test]
fn pacing_knows_its_limits() {
    let mut pacing = Pacing::new(MAX_NANOS - 10, 10);
    assert!(pacing.can_advance());
    pacing.record_frame();
    assert!(!pacing.can_advance());
    assert!(pacing.can_count_duplicate());
    pacing.num_duped = u64::MAX;
    assert!(!pacing.can_count_duplicate());
    let mut late = Pacing::new(0, 10);
    late.accumulated_delay = MAX_NANOS - 5;
    assert!(late.can_settle(5));
    assert!(!late.can_settle(6));
}
