use humanoid::calibration::ActuatorRange;
use humanoid::error::Error;
use humanoid::frame::Frame;
use humanoid::gateway::calibration_targets;
use humanoid::joint::{ActuatorId, Joint};
use humanoid::runtime::{
    all_arrived, sample_arrived, FrameQueue, PollOutcome, Runtime, Sample, StepAction, Tolerance,
};

fn frame(j: Joint, v: i32) -> Frame {
    Frame::from_pairs(&vec![(j, v)])
}

fn calibrated() -> Runtime {
    let mut rt = Runtime::new(Tolerance::standard());
    let readings: Vec<(ActuatorId, Option<ActuatorRange>)> = calibration_targets()
        .into_iter()
        .map(|a| (a, Some(ActuatorRange { min: 0, max: 90_000 })))
        .collect();
    assert_eq!(rt.install_calibration(&readings), Ok(()));
    rt
}

fn samples_for(cmds: &[humanoid::calibration::ActuatorCommand], offset: i64, speed: i64) -> Vec<Sample> {
    cmds.iter()
        .map(|c| Sample { target: c.position, position: c.position + offset, speed })
        .collect()
}

#[test]
fn push_then_advance_keeps_push_order() {
    let f1 = frame(Joint::LeftHipPitch, 1_000);
    let f2 = frame(Joint::LeftHipPitch, 2_000);
    let mut rt = Runtime::new(Tolerance::standard());
    rt.push_frame(f1);
    rt.push_frame(f2);
    assert_eq!(rt.queue_len(), 2);
    assert!(rt.advance());
    assert_eq!(rt.queue().current, Some(f1));
    assert!(rt.is_complete(&f1));
    assert!(rt.advance());
    assert_eq!(rt.queue().current, Some(f2));
    assert_eq!(rt.queue_len(), 0);
    assert!(!rt.advance());
    assert_eq!(rt.queue().current, None);
}

#[test]
fn overwrite_cancels_queued_frames() {
    let f1 = frame(Joint::LeftHipPitch, 1_000);
    let f2 = frame(Joint::LeftHipPitch, 2_000);
    let f3 = frame(Joint::LeftHipYaw, 3_000);
    let f4 = frame(Joint::LeftHipYaw, 4_000);
    let mut rt = Runtime::new(Tolerance::standard());
    rt.push_frame(f1);
    assert!(rt.advance());
    rt.push_frame(f3);
    rt.push_frame(f4);
    rt.overwrite(f2);
    assert_eq!(rt.queue().current, Some(f2));
    assert_eq!(rt.queue_len(), 0);
    assert!(rt.queue().queue.is_empty());
}

#[test]
fn frame_queue_methods_match_runtime() {
    let f1 = frame(Joint::LeftHipPitch, 1_000);
    let f2 = frame(Joint::LeftHipPitch, 2_000);
    let mut q = FrameQueue::new();
    q.push(f1);
    q.push(f2);
    assert!(q.advance());
    assert_eq!(q.current, Some(f1));
    q.overwrite(f2);
    assert_eq!(q.current, Some(f2));
    assert!(q.queue.is_empty());
}

#[test]
fn step_converges_on_first_poll() {
    let mut rt = calibrated();
    let f1 = Frame::from_pairs(&vec![(Joint::LeftHipPitch, 45_000), (Joint::RightKneePitch, 10_000)]);
    let f2 = frame(Joint::LeftHipYaw, 5_000);
    rt.push_frame(f1);
    rt.push_frame(f2);
    let cmds = match rt.step() {
        Ok(StepAction::Drive(cmds)) => cmds,
        other => panic!("expected a batched write, got {:?}", other),
    };
    assert_eq!(cmds.len(), 2);
    assert_eq!(rt.queue().current, Some(f1));
    let samples = samples_for(&cmds, 2_000, 0);
    assert_eq!(rt.observe(&samples), PollOutcome::Converged { advanced: true });
    assert_eq!(rt.queue().current, Some(f2));
    assert_eq!(rt.queue_len(), 0);
}

#[test]
fn stalled_joint_counts_as_converged() {
    let mut rt = calibrated();
    let f1 = Frame::from_pairs(&vec![(Joint::LeftHipPitch, 45_000), (Joint::LeftKneePitch, 90_000)]);
    rt.push_frame(f1);
    let cmds = match rt.step() {
        Ok(StepAction::Drive(cmds)) => cmds,
        other => panic!("expected a batched write, got {:?}", other),
    };
    let mut samples = samples_for(&cmds, 0, 0);
    samples[1].position = samples[1].target - 60_000;
    assert_eq!(rt.observe(&samples), PollOutcome::Converged { advanced: false });
    assert_eq!(rt.queue().current, None);
    assert_eq!(rt.step(), Ok(StepAction::Idle));
}

#[test]
fn moving_joint_far_from_target_keeps_polling() {
    let mut rt = calibrated();
    let f1 = frame(Joint::LeftHipPitch, 45_000);
    rt.push_frame(f1);
    let cmds = match rt.step() {
        Ok(StepAction::Drive(cmds)) => cmds,
        other => panic!("expected a batched write, got {:?}", other),
    };
    let far = samples_for(&cmds, 30_000, 20_000);
    assert_eq!(rt.observe(&far), PollOutcome::Pending);
    assert_eq!(rt.queue().current, Some(f1));
    let near = samples_for(&cmds, -10_000, 20_000);
    assert_eq!(rt.observe(&near), PollOutcome::Converged { advanced: false });
}

#[test]
fn overwrite_during_polling_supersedes() {
    let mut rt = calibrated();
    let f1 = frame(Joint::LeftHipPitch, 45_000);
    let f2 = frame(Joint::LeftHipPitch, 0);
    rt.push_frame(f1);
    let cmds = match rt.step() {
        Ok(StepAction::Drive(cmds)) => cmds,
        other => panic!("expected a batched write, got {:?}", other),
    };
    rt.overwrite(f2);
    assert_eq!(rt.observe(&samples_for(&cmds, 0, 0)), PollOutcome::Superseded);
    assert_eq!(rt.queue().current, Some(f2));
    match rt.step() {
        Ok(StepAction::Drive(cmds)) => assert_eq!(cmds[0].position, 0),
        other => panic!("expected a batched write, got {:?}", other),
    }
}

#[test]
fn step_with_nothing_to_do_is_idle() {
    let mut rt = Runtime::new(Tolerance::standard());
    assert_eq!(rt.step(), Ok(StepAction::Idle));
    assert_eq!(rt.queue().current, None);
}

#[test]
fn unmapped_joint_in_batch_rejects_whole_frame() {
    let mut rt = calibrated();
    let bad = Frame::from_pairs(&vec![(Joint::LeftHipPitch, 10_000), (Joint::LeftWristPitch, 10_000)]);
    rt.push_frame(bad);
    assert_eq!(rt.step(), Err(Error::UnsupportedJoint { joint: Joint::LeftWristPitch }));
    // nothing was committed: the frame is still queued and nothing is current
    assert_eq!(rt.queue().current, None);
    assert_eq!(rt.queue_len(), 1);
    assert_eq!(rt.observe(&vec![]), PollOutcome::Superseded);
}

#[test]
fn step_before_calibration_fails_without_change() {
    let mut rt = Runtime::new(Tolerance::standard());
    let f1 = frame(Joint::LeftHipPitch, 10_000);
    rt.push_frame(f1);
    assert_eq!(rt.step(), Err(Error::ServoNotFound));
    assert_eq!(rt.queue_len(), 1);
    assert_eq!(rt.queue().current, None);
}

#[test]
fn failed_calibration_keeps_previous_profile() {
    let mut rt = calibrated();
    let before = *rt.profile();
    let mut readings: Vec<(ActuatorId, Option<ActuatorRange>)> = calibration_targets()
        .into_iter()
        .map(|a| (a, Some(ActuatorRange { min: -5, max: 5 })))
        .collect();
    readings[3].1 = None;
    assert_eq!(rt.install_calibration(&readings), Err(Error::ServoNotFound));
    assert_eq!(*rt.profile(), before);
    assert_eq!(rt.translate(Joint::LeftHipPitch, 90_000), Ok(90_000));
}

#[test]
fn calibration_missing_an_actuator_is_rejected() {
    let mut rt = Runtime::new(Tolerance::standard());
    let readings = vec![(ActuatorId::LeftHipPitch, Some(ActuatorRange { min: 0, max: 10 }))];
    assert_eq!(rt.install_calibration(&readings), Err(Error::ServoNotFound));
    assert_eq!(rt.translate(Joint::LeftHipPitch, 0), Err(Error::ServoNotFound));
}

#[test]
fn arrival_predicate_edges() {
    let tol = Tolerance { distance: 10, speed: 5 };
    assert!(sample_arrived(Sample { target: 0, position: 10, speed: 100 }, tol));
    assert!(sample_arrived(Sample { target: 0, position: -10, speed: 100 }, tol));
    assert!(!sample_arrived(Sample { target: 0, position: 11, speed: 6 }, tol));
    assert!(sample_arrived(Sample { target: 0, position: 1_000, speed: -5 }, tol));
    assert!(!sample_arrived(Sample { target: i64::MIN, position: i64::MAX, speed: i64::MIN }, tol));
    assert!(all_arrived(&vec![], tol));
    assert!(!all_arrived(&vec![Sample { target: 0, position: 0, speed: 0 }, Sample { target: 0, position: 50, speed: 50 }], tol));
}
