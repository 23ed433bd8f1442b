use viture_relay::euler::{Command, EulerData, EulerHandler, ONE_BITS};

fn sample(roll: f32, pitch: f32, yaw: f32) -> EulerData {
    EulerData { roll: roll.to_bits(), pitch: pitch.to_bits(), yaw: yaw.to_bits() }
}

fn f(bits: u32) -> f32 {
    f32::from_bits(bits)
}

/// The full transform as the relay runs it: subtract the reference, scale
/// each axis, then let the library apply the invert flags.
fn transform(h: &EulerHandler, e: EulerData) -> EulerData {
    let (mut roll, mut pitch, mut yaw) = (f(e.roll), f(e.pitch), f(e.yaw));
    if let Some(r) = h.reference {
        roll -= f(r.roll);
        pitch -= f(r.pitch);
        yaw -= f(r.yaw);
    }
    roll *= f(h.roll_scale);
    pitch *= f(h.pitch_scale);
    yaw *= f(h.yaw_scale);
    h.apply_inversion(sample(roll, pitch, yaw))
}

#[test]
fn euler_center() {
    let mut euler_handler = EulerHandler::new(false);
    let reference_euler = sample(10.0, 10.0, 10.0);
    euler_handler.apply_commands(vec![Command::Recenter], Some(reference_euler));
    let test_euler = sample(5.0, 12.0, 0.0);
    assert_eq!(transform(&euler_handler, test_euler), sample(-5.0, 2.0, -10.0));
}

#[test]
fn euler_scale_invert() {
    let mut euler_handler = EulerHandler::new(false);
    euler_handler.apply_commands(
        vec![
            Command::ScaleYaw(10.0f32.to_bits()),
            Command::ScaleRoll(20.0f32.to_bits()),
            Command::ScalePitch(30.0f32.to_bits()),
            Command::InvertPitch(true),
        ],
        None,
    );
    let test_euler = sample(2.0, 2.0, 2.0);
    assert_eq!(transform(&euler_handler, test_euler), sample(40.0, -60.0, 20.0));
}

#[test]
fn new_handler_is_neutral() {
    let h = EulerHandler::new(true);
    assert!(h.debug);
    assert_eq!(h.reference, None);
    assert_eq!(ONE_BITS, 1.0f32.to_bits());
    assert_eq!(h.roll_scale, ONE_BITS);
    assert_eq!(h.pitch_scale, ONE_BITS);
    assert_eq!(h.yaw_scale, ONE_BITS);
    assert!(!h.roll_invert && !h.pitch_invert && !h.yaw_invert);
    let s = sample(1.5, -2.25, 3.0);
    assert_eq!(h.apply_inversion(s), s);
    assert_eq!(transform(&h, s), s);
}

#[test]
fn recenter_then_transform_subtracts_reference() {
    let mut h = EulerHandler::new(false);
    h.apply_commands(vec![Command::ScaleRoll(2.0f32.to_bits()), Command::InvertYaw(true)], None);
    h.apply_commands(vec![Command::Recenter], Some(sample(1.0, 2.0, 3.0)));
    assert_eq!(h.reference, Some(sample(1.0, 2.0, 3.0)));
    assert_eq!(h.roll_scale, 2.0f32.to_bits());
    assert!(h.yaw_invert);
    assert_eq!(transform(&h, sample(4.0, 4.0, 4.0)), sample(6.0, 2.0, -1.0));
}

#[test]
fn recenter_without_sample_clears_reference() {
    let mut h = EulerHandler::new(false);
    h.apply_commands(vec![Command::Recenter], Some(sample(10.0, 10.0, 10.0)));
    assert!(h.reference.is_some());
    h.apply_commands(vec![Command::Recenter], None);
    assert_eq!(h.reference, None);
    assert_eq!(transform(&h, sample(5.0, 12.0, 0.0)), sample(5.0, 12.0, 0.0));
}

#[test]
fn last_write_wins_within_a_batch() {
    let mut h = EulerHandler::new(false);
    h.apply_commands(
        vec![
            Command::ScalePitch(3.0f32.to_bits()),
            Command::InvertRoll(true),
            Command::ScalePitch(0.0f32.to_bits()),
            Command::InvertRoll(false),
            Command::ScaleYaw((-1.0f32).to_bits()),
        ],
        None,
    );
    assert_eq!(h.pitch_scale, 0.0f32.to_bits());
    assert!(!h.roll_invert);
    assert_eq!(h.yaw_scale, (-1.0f32).to_bits());
    assert_eq!(h.roll_scale, ONE_BITS);
}

#[test]
fn empty_batch_changes_nothing() {
    let mut h = EulerHandler::new(false);
    h.apply_commands(vec![Command::InvertPitch(true)], None);
    let before = h;
    h.apply_commands(Vec::new(), Some(sample(1.0, 1.0, 1.0)));
    assert_eq!(h.reference, before.reference);
    assert_eq!(h.pitch_invert, before.pitch_invert);
}

#[test]
fn inversion_flips_only_flagged_axes() {
    let mut h = EulerHandler::new(false);
    h.apply_commands(vec![Command::InvertRoll(true), Command::InvertYaw(true)], None);
    let s = sample(1.0, 2.0, -3.0);
    assert_eq!(h.apply_inversion(s), sample(-1.0, 2.0, 3.0));
    let mut e = sample(0.0, 7.5, 1.0);
    e.invert_roll();
    e.invert_pitch();
    e.invert_yaw();
    assert_eq!(e, sample(-0.0, -7.5, -1.0));
    e.invert_pitch();
    assert_eq!(f(e.pitch), 7.5);
}

#[test]
fn control_message_applies_both_commands_in_order() {
    let mut h = EulerHandler::new(false);
    let last_raw = sample(3.0, 4.0, 5.0);
    h.apply_commands(vec![Command::Recenter, Command::ScalePitch(2.0f32.to_bits())], Some(last_raw));
    assert_eq!(h.reference, Some(last_raw));
    assert_eq!(h.pitch_scale, 2.0f32.to_bits());
    assert_eq!(transform(&h, sample(3.0, 5.0, 5.0)), sample(0.0, 2.0, 0.0));
}
