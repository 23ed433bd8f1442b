use viture_relay::telemetry::{FrameCounter, OpenTrackData, RECORD_LEN};

#[test]
fn record_is_52_bytes_and_yaw_round_trips() {
    let d = OpenTrackData::from_viture_sdk(
        12.5f64.to_bits(),
        (-3.75f64).to_bits(),
        0.1f64.to_bits(),
        7,
    );
    assert_eq!(d.x, 0.0f64.to_bits());
    let raw = d.into_raw();
    assert_eq!(raw.len(), 52);
    assert_eq!(RECORD_LEN, 52);
    let yaw = f64::from_le_bytes(raw[24..32].try_into().unwrap());
    assert_eq!(yaw.to_bits(), 12.5f64.to_bits());
    let pitch = f64::from_le_bytes(raw[32..40].try_into().unwrap());
    assert_eq!(pitch, -3.75);
    let roll = f64::from_le_bytes(raw[40..48].try_into().unwrap());
    assert_eq!(roll, 0.1);
    assert_eq!(u32::from_le_bytes(raw[48..52].try_into().unwrap()), 7);
    assert!(raw[0..24].iter().all(|&b| b == 0));
}

#[test]
fn frame_counter_counts_from_zero_and_wraps() {
    let mut c = FrameCounter::new();
    let first = c.encode(1.0f64.to_bits(), 2.0f64.to_bits(), 3.0f64.to_bits());
    assert_eq!(u32::from_le_bytes(first[48..52].try_into().unwrap()), 0);
    let second = c.encode(1.0f64.to_bits(), 2.0f64.to_bits(), 3.0f64.to_bits());
    assert_eq!(u32::from_le_bytes(second[48..52].try_into().unwrap()), 1);
    assert_eq!(c.frame_number, 2);
    c.frame_number = u32::MAX;
    let last = c.encode(0, 0, 0);
    assert_eq!(u32::from_le_bytes(last[48..52].try_into().unwrap()), u32::MAX);
    assert_eq!(c.frame_number, 0);
}
