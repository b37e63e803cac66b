use humanoid::calibration::{ActuatorCommand, ActuatorRange, CalibrationProfile};
use humanoid::error::{no_such_servo, Error};
use humanoid::frame::Frame;
use humanoid::gateway::{
    calibration_targets, command_for, decode_actuator_states, decode_servo_info, initial_pose,
    joint_position, reading_source, torque_enable_all, uniform_torque, ActuatorState, JointPosition,
    RawActuatorState, ServoInfo, ServoInfoReply,
};
use humanoid::joint::{ActuatorId, Joint, ACTUATOR_COUNT};
use humanoid::pose::{
    frame_json_to_frame, frames_from_document, joint_for_key, PoseEntry, PoseError, PoseValue,
};

fn object(pairs: &[(&str, PoseValue)]) -> PoseEntry {
    PoseEntry::Object(pairs.iter().map(|(k, v)| (k.to_string(), *v)).collect())
}

#[test]
fn pose_key_names_actuator_wire_value() {
    let f = frame_json_to_frame(&object(&[("15", PoseValue::Angle(12_500))])).unwrap();
    assert_eq!(f.get(Joint::LeftShoulderYaw), Some(12_500));
    assert_eq!(f.pairs(), vec![(Joint::LeftShoulderYaw, 12_500)]);
    let g = frame_json_to_frame(&object(&[("8", PoseValue::Angle(-3)), ("1", PoseValue::Angle(7))])).unwrap();
    assert_eq!(g.get(Joint::LeftKneeYaw), Some(-3));
    assert_eq!(g.get(Joint::RightAnklePitch), Some(7));
}

#[test]
fn pose_later_key_for_same_joint_wins() {
    let f = frame_json_to_frame(&object(&[("10", PoseValue::Angle(1)), ("10", PoseValue::Angle(2))])).unwrap();
    assert_eq!(f.get(Joint::LeftHipPitch), Some(2));
}

#[test]
fn pose_rejects_malformed_entries() {
    assert_eq!(frame_json_to_frame(&PoseEntry::NotObject), Err(PoseError::NotAnObject));
    assert_eq!(frame_json_to_frame(&object(&[("abc", PoseValue::Angle(1))])), Err(PoseError::InvalidKey));
    assert_eq!(frame_json_to_frame(&object(&[("99", PoseValue::Angle(1))])), Err(PoseError::UnknownActuator { id: 99 }));
    assert_eq!(frame_json_to_frame(&object(&[("0", PoseValue::Angle(1))])), Err(PoseError::UnknownActuator { id: 0 }));
    assert_eq!(frame_json_to_frame(&object(&[("3", PoseValue::NotNumber)])), Err(PoseError::NotNumeric));
    assert_eq!(
        frame_json_to_frame(&object(&[("3", PoseValue::Angle(1)), ("x", PoseValue::NotNumber)])),
        Err(PoseError::InvalidKey)
    );
}

#[test]
fn pose_empty_object_is_empty_frame() {
    assert_eq!(frame_json_to_frame(&object(&[])), Ok(Frame::new()));
}

#[test]
fn pose_document_is_all_or_nothing() {
    let good = object(&[("2", PoseValue::Angle(4))]);
    let frames = frames_from_document(&vec![good.clone(), object(&[("13", PoseValue::Angle(9))])]).unwrap();
    assert_eq!(frames.len(), 2);
    assert_eq!(frames[0].get(Joint::RightKneePitch), Some(4));
    assert_eq!(frames[1].get(Joint::RightShoulderPitch), Some(9));
    assert_eq!(frames_from_document(&vec![good.clone(), PoseEntry::NotObject, good]), Err(PoseError::NotAnObject));
    assert_eq!(frames_from_document(&vec![]), Ok(vec![]));
}

#[test]
fn key_to_joint_decision() {
    assert_eq!(joint_for_key(None), Err(PoseError::InvalidKey));
    assert_eq!(joint_for_key(Some(17)), Err(PoseError::UnknownActuator { id: 17 }));
    assert_eq!(joint_for_key(Some(3)), Ok(Joint::RightKneeYaw));
    assert_eq!(joint_for_key(Some(16)), Ok(Joint::LeftElbowYaw));
}

#[test]
fn wire_values_round_trip() {
    for v in 1..=16 {
        let a = ActuatorId::from_wire(v).unwrap();
        assert_eq!(a.wire(), v);
        assert_eq!(a.index() as i32, v - 1);
        assert_eq!(ActuatorId::from_index(a.index()), a);
        assert_eq!(Joint::driven_by(a).actuator(), Some(a));
    }
    assert_eq!(ActuatorId::from_wire(0), None);
    assert_eq!(ActuatorId::from_wire(17), None);
    assert_eq!(ActuatorId::from_wire(-1), None);
}

#[test]
fn joint_order_round_trips() {
    for i in 0..28 {
        assert_eq!(Joint::from_index(i).index(), i);
    }
    assert_eq!(Joint::NeckYaw.index(), 27);
    assert_eq!(Joint::LeftKneeYaw.actuator(), Some(ActuatorId::LeftHipRoll));
    assert_eq!(Joint::LeftHipRoll.actuator(), None);
}

#[test]
fn servo_info_reply_decoding() {
    let info = ServoInfo { id: ActuatorId::LeftHipYaw, speed: 3, current_position: 4, min_position: -1, max_position: 1 };
    assert_eq!(decode_servo_info(ServoInfoReply::Empty), Ok(None));
    assert_eq!(decode_servo_info(ServoInfoReply::Info(info)), Ok(Some(info)));
    assert_eq!(
        decode_servo_info(ServoInfoReply::Failure("busy".to_string())),
        Err(Error::Request { message: "busy".to_string() })
    );
    assert_eq!(info.range(), ActuatorRange { min: -1, max: 1 });
}

#[test]
fn joint_position_from_servo_info() {
    let info = ServoInfo { id: ActuatorId::LeftHipYaw, speed: 3, current_position: 4, min_position: -1, max_position: 1 };
    assert_eq!(
        joint_position(Joint::LeftHipYaw, Some(info)),
        Ok(JointPosition { joint: Joint::LeftHipYaw, position: 4, speed: 3 })
    );
    assert_eq!(joint_position(Joint::LeftHipYaw, None), Err(no_such_servo()));
    assert_eq!(reading_source(Joint::RightKneeYaw), Ok(ActuatorId::RightHipRoll));
    assert_eq!(reading_source(Joint::NeckPitch), Err(Error::UnsupportedJoint { joint: Joint::NeckPitch }));
}

#[test]
fn actuator_state_decoding_filters_incomplete() {
    let raw = vec![
        RawActuatorState { actuator_id: 5, position: Some(10), velocity: Some(1) },
        RawActuatorState { actuator_id: 6, position: None, velocity: Some(1) },
        RawActuatorState { actuator_id: 40, position: Some(1), velocity: Some(1) },
        RawActuatorState { actuator_id: 7, position: Some(-2), velocity: Some(0) },
    ];
    assert_eq!(
        decode_actuator_states(&raw),
        Ok(vec![
            ActuatorState { id: ActuatorId::RightHipPitch, position: 10, speed: 1 },
            ActuatorState { id: ActuatorId::LeftKneePitch, position: -2, speed: 0 },
        ])
    );
    let none = vec![RawActuatorState { actuator_id: 5, position: Some(1), velocity: None }];
    assert_eq!(decode_actuator_states(&none), Err(Error::ServoNotFound));
    assert_eq!(decode_actuator_states(&vec![]), Err(Error::ServoNotFound));
}

#[test]
fn calibration_queries_every_mapped_actuator() {
    let targets = calibration_targets();
    assert_eq!(targets.len(), ACTUATOR_COUNT);
    assert_eq!(targets[0], ActuatorId::LeftHipPitch);
    assert_eq!(targets[7], ActuatorId::RightHipRoll);
    let mut seen = [false; ACTUATOR_COUNT];
    for a in targets {
        assert!(!seen[a.index()]);
        seen[a.index()] = true;
    }
}

#[test]
fn torque_settings_cover_all_actuators() {
    let en = torque_enable_all(true);
    assert_eq!(en.len(), 16);
    assert_eq!(en[0].id, ActuatorId::RightAnklePitch);
    assert_eq!(en[15].id, ActuatorId::LeftElbowYaw);
    assert!(en.iter().all(|s| s.enable));
    let t = uniform_torque(50);
    assert_eq!(t.len(), 16);
    assert!(t.iter().all(|s| s.torque == 50));
    assert_eq!(t[9].id, ActuatorId::LeftHipPitch);
}

#[test]
fn single_joint_command() {
    let mut p = CalibrationProfile::empty();
    p.ranges[ActuatorId::LeftHipRoll.index()] = Some(ActuatorRange { min: 0, max: 90_000 });
    assert_eq!(
        command_for(&p, Joint::LeftKneeYaw, 20_000),
        Ok(ActuatorCommand { joint: Joint::LeftKneeYaw, actuator: ActuatorId::LeftHipRoll, position: 20_000 })
    );
    assert_eq!(command_for(&p, Joint::LeftHipPitch, 0), Err(Error::ServoNotFound));
    assert_eq!(command_for(&p, Joint::LeftWristYaw, 0), Err(Error::UnsupportedJoint { joint: Joint::LeftWristYaw }));
}

#[test]
fn initial_pose_applies_later_targets() {
    let f = initial_pose();
    assert_eq!(f.get(Joint::LeftHipPitch), Some(45_000));
    assert_eq!(f.get(Joint::RightHipPitch), Some(45_000));
    assert_eq!(f.get(Joint::RightShoulderPitch), Some(90_000));
    assert_eq!(f.get(Joint::LeftElbowYaw), Some(0));
    assert_eq!(f.get(Joint::NeckPitch), None);
    assert_eq!(f.pairs().len(), 16);
}

#[test]
fn frame_equality_and_setters() {
    let mut a = Frame::new();
    a.set(Joint::NeckYaw, 1);
    let b = Frame::from_pairs(&vec![(Joint::NeckYaw, 1)]);
    assert_eq!(a, b);
    a.set(Joint::NeckYaw, 2);
    assert_ne!(a, b);
    assert_eq!(a.get(Joint::NeckPitch), None);
}
