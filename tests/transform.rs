use humanoid::calibration::{ActuatorRange, CalibrationProfile, TransformSpec};
use humanoid::error::Error;
use humanoid::frame::Frame;
use humanoid::joint::{ActuatorId, Joint, ACTUATOR_COUNT};

fn profile_with(a: ActuatorId, min: i32, max: i32) -> CalibrationProfile {
    let mut p = CalibrationProfile::empty();
    p.ranges[a.index()] = Some(ActuatorRange { min, max });
    p
}

fn full_profile(min: i32, max: i32) -> CalibrationProfile {
    CalibrationProfile { ranges: [Some(ActuatorRange { min, max }); ACTUATOR_COUNT] }
}

#[test]
fn identity_calibration_maps_endpoints() {
    let p = profile_with(ActuatorId::LeftHipPitch, 0, 90_000);
    assert_eq!(p.translate(Joint::LeftHipPitch, 0), Ok(0));
    assert_eq!(p.translate(Joint::LeftHipPitch, 90_000), Ok(90_000));
    assert_eq!(p.translate(Joint::LeftHipPitch, 30_000), Ok(30_000));
}

#[test]
fn degenerate_calibration_returns_min() {
    let p = profile_with(ActuatorId::LeftHipPitch, 10_000, 10_000);
    for v in [i32::MIN, -90_000, 0, 45_000, 90_000, i32::MAX] {
        assert_eq!(p.translate(Joint::LeftHipPitch, v), Ok(10_000));
    }
}

#[test]
fn offset_joint_shifts_by_half_right_angle() {
    let p = profile_with(ActuatorId::LeftAnklePitch, 0, 90_000);
    assert_eq!(p.translate(Joint::LeftAnklePitch, 0), Ok(45_000));
    assert_eq!(p.translate(Joint::LeftAnklePitch, -45_000), Ok(0));
}

#[test]
fn inverted_joint_runs_backwards() {
    let p = profile_with(ActuatorId::RightShoulderPitch, 0, 180_000);
    assert_eq!(p.translate(Joint::RightShoulderPitch, 0), Ok(90_000));
    assert_eq!(p.translate(Joint::RightShoulderPitch, 45_000), Ok(0));
    let q = profile_with(ActuatorId::RightShoulderYaw, 1_000, 91_000);
    assert_eq!(q.translate(Joint::RightShoulderYaw, 90_000), Ok(1_000));
    assert_eq!(q.translate(Joint::RightShoulderYaw, 0), Ok(91_000));
}

#[test]
fn elbow_joints_use_straight_angle_basis() {
    let p = profile_with(ActuatorId::LeftElbowYaw, -90_000, 90_000);
    assert_eq!(p.translate(Joint::LeftElbowYaw, 30_000), Ok(30_000));
    let q = profile_with(ActuatorId::RightElbowYaw, -90_000, 90_000);
    assert_eq!(q.translate(Joint::RightElbowYaw, 90_000), Ok(-90_000));
    assert_eq!(q.translate(Joint::RightElbowYaw, 0), Ok(0));
}

#[test]
fn translation_rounds_down() {
    let p = profile_with(ActuatorId::LeftHipPitch, 0, 1_000);
    assert_eq!(p.translate(Joint::LeftHipPitch, 1), Ok(0));
    assert_eq!(p.translate(Joint::LeftHipPitch, -1), Ok(-1));
    assert_eq!(p.translate(Joint::LeftHipPitch, 180), Ok(2));
}

#[test]
fn extreme_inputs_do_not_overflow() {
    let p = profile_with(ActuatorId::RightShoulderPitch, i32::MIN, i32::MAX);
    let r = p.translate(Joint::RightShoulderPitch, i32::MIN).unwrap();
    let expected = ((45_000i128 - i32::MIN as i128) * (i32::MAX as i128 - i32::MIN as i128)).div_euclid(90_000)
        + i32::MIN as i128;
    assert_eq!(r as i128, expected);
}

#[test]
fn unmapped_joint_is_unsupported() {
    let p = full_profile(0, 90_000);
    assert_eq!(p.translate(Joint::LeftWristPitch, 0), Err(Error::UnsupportedJoint { joint: Joint::LeftWristPitch }));
    assert_eq!(p.translate(Joint::NeckYaw, 0), Err(Error::UnsupportedJoint { joint: Joint::NeckYaw }));
}

#[test]
fn uncalibrated_actuator_is_not_found() {
    let p = CalibrationProfile::empty();
    assert_eq!(p.translate(Joint::LeftHipPitch, 0), Err(Error::ServoNotFound));
}

#[test]
fn transform_table_matches_mapping() {
    for i in 0..28 {
        let j = Joint::from_index(i);
        match TransformSpec::for_joint(j) {
            Some(t) => assert_eq!(Some(t.actuator), j.actuator()),
            None => assert_eq!(j.actuator(), None),
        }
    }
}

#[test]
fn batch_covers_every_joint_in_order() {
    let p = full_profile(0, 90_000);
    let f = Frame::from_pairs(&vec![(Joint::LeftKneeYaw, 10_000), (Joint::LeftHipPitch, 20_000)]);
    let cmds = p.translate_frame(&f).unwrap();
    assert_eq!(cmds.len(), 2);
    assert_eq!(cmds[0].joint, Joint::LeftHipPitch);
    assert_eq!(cmds[0].actuator, ActuatorId::LeftHipPitch);
    assert_eq!(cmds[0].position, 20_000);
    assert_eq!(cmds[1].joint, Joint::LeftKneeYaw);
    assert_eq!(cmds[1].actuator, ActuatorId::LeftHipRoll);
    assert_eq!(cmds[1].position, 10_000);
}

#[test]
fn batch_with_unmapped_joint_is_rejected_whole() {
    let p = full_profile(0, 90_000);
    let f = Frame::from_pairs(&vec![
        (Joint::LeftHipPitch, 20_000),
        (Joint::LeftWristYaw, 5_000),
        (Joint::NeckPitch, 0),
    ]);
    assert_eq!(p.translate_frame(&f), Err(Error::UnsupportedJoint { joint: Joint::LeftWristYaw }));
}

#[test]
fn empty_frame_gives_empty_batch() {
    let p = CalibrationProfile::empty();
    assert_eq!(p.translate_frame(&Frame::new()), Ok(vec![]));
}

#[test]
fn per_joint_report_isolates_failures() {
    let p = profile_with(ActuatorId::LeftHipPitch, 0, 90_000);
    let f = Frame::from_pairs(&vec![
        (Joint::LeftHipPitch, 20_000),
        (Joint::LeftHipYaw, 1_000),
        (Joint::LeftWristYaw, 5_000),
    ]);
    let report = p.translate_each(&f);
    assert_eq!(
        report,
        vec![
            (Joint::LeftHipPitch, Ok(20_000)),
            (Joint::LeftHipYaw, Err(Error::ServoNotFound)),
            (Joint::LeftWristYaw, Err(Error::UnsupportedJoint { joint: Joint::LeftWristYaw })),
        ]
    );
}
