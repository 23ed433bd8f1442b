use viture_relay::control::{
    check_cli_commands, collect_batch, frame_records, split_records, CalibrationFlags,
};
use viture_relay::euler::Command;

fn no_flags() -> CalibrationFlags {
    CalibrationFlags {
        center: false,
        scale_yaw: None,
        scale_pitch: None,
        scale_roll: None,
        invert_yaw: None,
        invert_pitch: None,
        invert_roll: None,
    }
}

#[test]
fn split_on_separator() {
    let records = split_records(b"\"Recenter\";{\"ScalePitch\":2.0}");
    assert_eq!(records, vec![b"\"Recenter\"".to_vec(), b"{\"ScalePitch\":2.0}".to_vec()]);
    assert_eq!(split_records(b""), vec![Vec::<u8>::new()]);
    assert_eq!(split_records(b"a;;b;"), vec![b"a".to_vec(), vec![], b"b".to_vec(), vec![]]);
}

#[test]
fn framing_round_trips() {
    let records = vec![b"\"Recenter\"".to_vec(), b"{\"InvertYaw\":true}".to_vec()];
    let payload = frame_records(&records);
    assert_eq!(payload, b"\"Recenter\";{\"InvertYaw\":true};".to_vec());
    let mut expected = records.clone();
    expected.push(Vec::new());
    assert_eq!(split_records(&payload), expected);
}

#[test]
fn batch_skips_undecoded_records() {
    let batch = collect_batch(vec![
        Some(Command::Recenter),
        None,
        Some(Command::ScalePitch(2.0f32.to_bits())),
        None,
    ]);
    assert_eq!(batch, Some(vec![Command::Recenter, Command::ScalePitch(2.0f32.to_bits())]));
    assert_eq!(collect_batch(vec![None, None]), None);
    assert_eq!(collect_batch(Vec::new()), None);
}

#[test]
fn cli_without_calibration_flags_runs_relay() {
    assert_eq!(check_cli_commands(&no_flags()), None);
}

#[test]
fn cli_commands_in_declaration_order() {
    let flags = CalibrationFlags {
        center: true,
        scale_yaw: Some(10.0f32.to_bits()),
        scale_pitch: Some(20.0f32.to_bits()),
        scale_roll: Some(30.0f32.to_bits()),
        invert_yaw: Some(true),
        invert_pitch: Some(false),
        invert_roll: Some(true),
    };
    assert_eq!(
        check_cli_commands(&flags),
        Some(vec![
            Command::Recenter,
            Command::ScaleYaw(10.0f32.to_bits()),
            Command::ScalePitch(20.0f32.to_bits()),
            Command::ScaleRoll(30.0f32.to_bits()),
            Command::InvertYaw(true),
            Command::InvertPitch(false),
            Command::InvertRoll(true),
        ])
    );
    let only_pitch = CalibrationFlags { invert_pitch: Some(true), ..no_flags() };
    assert_eq!(check_cli_commands(&only_pitch), Some(vec![Command::InvertPitch(true)]));
}
