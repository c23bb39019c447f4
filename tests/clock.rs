use byterusther::clock::{pace, Pacing, FRAME_NANOS};

#[test]
fn frame_period_is_a_sixtieth() {
    assert_eq!(FRAME_NANOS, 16_666_666);
}

#[test]
fn sleep_is_what_is_left() {
    assert_eq!(pace(FRAME_NANOS, 6_666_666), Pacing { sleep_nanos: 10_000_000, overrun: false });
    assert_eq!(pace(FRAME_NANOS, FRAME_NANOS), Pacing { sleep_nanos: 0, overrun: false });
}

#[test]
fn overrun_clamps_sleep_to_zero() {
    assert_eq!(pace(FRAME_NANOS, FRAME_NANOS + 1), Pacing { sleep_nanos: 0, overrun: true });
    assert_eq!(pace(FRAME_NANOS, u64::MAX), Pacing { sleep_nanos: 0, overrun: true });
}
