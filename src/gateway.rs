use vstd::prelude::*;

use crate::calibration::{
    lemma_transform_table, transform_of, translation, ActuatorCommand, ActuatorRange,
    CalibrationProfile, TransformSpec,
};
use crate::error::{no_such_servo, Error};
use crate::frame::{table_of_pairs, Frame};
use crate::joint::{actuator_of, actuator_with_wire, joint_at, ActuatorId, Joint, ACTUATOR_COUNT, JOINT_COUNT};

verus! {

/// What the gateway reports about one actuator, in fixed-point units
/// (thousandths of a degree, and of a degree per second).
#[derive(Debug, Clone, Copy, PartialEq, Eq, Structural)]
pub struct ServoInfo {
    pub id: ActuatorId,
    pub speed: i64,
    pub current_position: i64,
    pub min_position: i32,
    pub max_position: i32,
}

/// The gateway's answer to a request for one actuator's information.
#[derive(Debug, Clone, PartialEq, Eq)]
pub enum ServoInfoReply {
    /// The reply carried no result.
    Empty,
    /// The actuator's information.
    Info(ServoInfo),
    /// The gateway reported an application error.
    Failure(String),
}

/// The position and speed of one canonical joint.
#[derive(Debug, Clone, Copy, PartialEq, Eq, Structural)]
pub struct JointPosition {
    pub joint: Joint,
    pub position: i64,
    pub speed: i64,
}

/// The position and speed of one actuator.
#[derive(Debug, Clone, Copy, PartialEq, Eq, Structural)]
pub struct ActuatorState {
    pub id: ActuatorId,
    pub position: i64,
    pub speed: i64,
}

/// One actuator state as it comes off the wire, where every field may be
/// absent.
#[derive(Debug, Clone, Copy, PartialEq, Eq, Structural)]
pub struct RawActuatorState {
    pub actuator_id: u32,
    pub position: Option<i64>,
    pub velocity: Option<i64>,
}

/// Switch one actuator's torque on or off.
#[derive(Debug, Clone, Copy, PartialEq, Eq, Structural)]
pub struct TorqueEnableSetting {
    pub id: ActuatorId,
    pub enable: bool,
}

/// Set one actuator's torque, in percent.
#[derive(Debug, Clone, Copy, PartialEq, Eq, Structural)]
pub struct TorqueSetting {
    pub id: ActuatorId,
    pub torque: u8,
}

impl ServoInfo {
    /// The physical range the actuator reports.
    pub fn range(&self) -> (r: ActuatorRange)
        ensures
            r == (ActuatorRange { min: self.min_position, max: self.max_position }),
    {
        ActuatorRange { min: self.min_position, max: self.max_position }
    }
}

/// Reads a servo-information reply: an empty reply means no such actuator,
/// a failure becomes a `Request` error.
pub fn decode_servo_info(reply: ServoInfoReply) -> (r: Result<Option<ServoInfo>, Error>)
    ensures
        match reply {
            ServoInfoReply::Empty => r == Ok::<Option<ServoInfo>, Error>(None),
            ServoInfoReply::Info(info) => r == Ok::<Option<ServoInfo>, Error>(Some(info)),
            ServoInfoReply::Failure(message) => r == Err::<Option<ServoInfo>, Error>(Error::Request { message }),
        },
{
    match reply {
        ServoInfoReply::Empty => Ok(None),
        ServoInfoReply::Info(info) => Ok(Some(info)),
        ServoInfoReply::Failure(message) => Err(Error::Request { message }),
    }
}

/// The actuator to query for `joint`'s position; an unactuated joint has
/// none.
pub fn reading_source(joint: Joint) -> (r: Result<ActuatorId, Error>)
    ensures
        match actuator_of(joint) {
            Some(a) => r == Ok::<ActuatorId, Error>(a),
            None => r == Err::<ActuatorId, Error>(Error::UnsupportedJoint { joint }),
        },
{
    match joint.actuator() {
        Some(a) => Ok(a),
        None => Err(Error::UnsupportedJoint { joint }),
    }
}

/// The position of `joint` from the information its actuator reported;
/// no information means the actuator was not found.
pub fn joint_position(joint: Joint, info: Option<ServoInfo>) -> (r: Result<JointPosition, Error>)
    ensures
        match info {
            Some(i) => r == Ok::<JointPosition, Error>(JointPosition { joint, position: i.current_position, speed: i.speed }),
            None => r == Err::<JointPosition, Error>(Error::ServoNotFound),
        },
{
    match info {
        Some(i) => Ok(JointPosition { joint, position: i.current_position, speed: i.speed }),
        None => Err(no_such_servo()),
    }
}

/// The states among the first `n` raw ones that carry a known actuator, a
/// position and a velocity, in order.
pub open spec fn states_upto(raw: Seq<RawActuatorState>, n: int) -> Seq<ActuatorState>
    decreases n,
{
    if n <= 0 {
        Seq::empty()
    } else {
        let rest = states_upto(raw, n - 1);
        let s = raw[n - 1];
        if s.position is Some && s.velocity is Some && actuator_with_wire(s.actuator_id as int) is Some {
            rest.push(ActuatorState {
                id: actuator_with_wire(s.actuator_id as int)->0,
                position: s.position->0,
                speed: s.velocity->0,
            })
        } else {
            rest
        }
    }
}

/// Reads the states of an actuator-state reply, keeping those that carry a
/// known actuator, a position and a velocity. A reply with none of them means
/// the actuator was not found.
pub fn decode_actuator_states(raw: &Vec<RawActuatorState>) -> (r: Result<Vec<ActuatorState>, Error>)
    ensures
        states_upto(raw@, raw@.len() as int).len() == 0 ==> r == Err::<Vec<ActuatorState>, Error>(Error::ServoNotFound),
        states_upto(raw@, raw@.len() as int).len() > 0 ==> r is Ok && r->Ok_0@ == states_upto(raw@, raw@.len() as int),
{
    let mut out: Vec<ActuatorState> = Vec::new();
    let mut i: usize = 0;
    while i < raw.len()
        invariant
            i <= raw@.len(),
            out@ == states_upto(raw@, i as int),
        decreases raw@.len() - i,
    {
        let s = raw[i];
        match (s.position, s.velocity) {
            (Some(position), Some(speed)) => {
                if s.actuator_id <= 16 {
                    match ActuatorId::from_wire(s.actuator_id as i32) {
                        Some(id) => {
                            out.push(ActuatorState { id, position, speed });
                        },
                        None => {},
                    }
                }
            },
            _ => {},
        }
        i = i + 1;
    }
    if out.len() == 0 {
        return Err(Error::ServoNotFound);
    }
    Ok(out)
}

/// The actuators that the joints of the mapping reference, in canonical
/// joint order.
pub open spec fn targets_upto(n: int) -> Seq<ActuatorId>
    decreases n,
{
    if n <= 0 {
        Seq::empty()
    } else {
        match actuator_of(joint_at(n - 1)) {
            Some(a) => targets_upto(n - 1).push(a),
            None => targets_upto(n - 1),
        }
    }
}

/// The actuators whose limits calibration queries: every actuator that some
/// mapped joint references, in canonical joint order.
pub fn calibration_targets() -> (r: Vec<ActuatorId>)
    ensures
        r@ == targets_upto(JOINT_COUNT as int),
{
    let mut r: Vec<ActuatorId> = Vec::new();
    let mut i: usize = 0;
    while i < JOINT_COUNT
        invariant
            i <= JOINT_COUNT,
            r@ == targets_upto(i as int),
        decreases JOINT_COUNT - i,
    {
        match Joint::from_index(i).actuator() {
            Some(a) => r.push(a),
            None => {},
        }
        i = i + 1;
    }
    r
}

/// One torque-enable setting per actuator, in wire order, all with `enable`.
pub fn torque_enable_all(enable: bool) -> (r: Vec<TorqueEnableSetting>)
    ensures
        r@.len() == ACTUATOR_COUNT,
        forall|i: int| 0 <= i < ACTUATOR_COUNT ==> #[trigger] r@[i] == (TorqueEnableSetting {
            id: actuator_with_wire(i + 1)->0,
            enable,
        }),
{
    let mut r: Vec<TorqueEnableSetting> = Vec::new();
    let mut w: i32 = 1;
    while w <= 16
        invariant
            1 <= w <= 17,
            r@.len() == w - 1,
            forall|i: int| 0 <= i < w - 1 ==> #[trigger] r@[i] == (TorqueEnableSetting {
                id: actuator_with_wire(i + 1)->0,
                enable,
            }),
        decreases 17 - w,
    {
        match ActuatorId::from_wire(w) {
            Some(id) => r.push(TorqueEnableSetting { id, enable }),
            None => {},
        }
        w = w + 1;
    }
    r
}

/// One torque setting per actuator, in wire order, all with `torque` percent.
pub fn uniform_torque(torque: u8) -> (r: Vec<TorqueSetting>)
    requires
        torque <= 100,
    ensures
        r@.len() == ACTUATOR_COUNT,
        forall|i: int| 0 <= i < ACTUATOR_COUNT ==> #[trigger] r@[i] == (TorqueSetting {
            id: actuator_with_wire(i + 1)->0,
            torque,
        }),
{
    let mut r: Vec<TorqueSetting> = Vec::new();
    let mut w: i32 = 1;
    while w <= 16
        invariant
            1 <= w <= 17,
            r@.len() == w - 1,
            forall|i: int| 0 <= i < w - 1 ==> #[trigger] r@[i] == (TorqueSetting {
                id: actuator_with_wire(i + 1)->0,
                torque,
            }),
        decreases 17 - w,
    {
        match ActuatorId::from_wire(w) {
            Some(id) => r.push(TorqueSetting { id, torque }),
            None => {},
        }
        w = w + 1;
    }
    r
}

/// The single-joint write: the command that drives `joint` to canonical
/// `value`.
pub fn command_for(profile: &CalibrationProfile, joint: Joint, value: i32) -> (r: Result<ActuatorCommand, Error>)
    ensures
        match (r, translation(profile@, joint, value as int)) {
            (Ok(c), Ok(p)) => c == (ActuatorCommand {
                joint,
                actuator: transform_of(joint)->0.actuator,
                position: p as i64,
            }) && c.position as int == p,
            (Err(e), Err(f)) => e == f,
            _ => false,
        },
{
    proof {
        lemma_transform_table();
    }
    match profile.translate(joint, value) {
        Err(e) => Err(e),
        Ok(position) => {
            let actuator = match TransformSpec::for_joint(joint) {
                Some(t) => t.actuator,
                None => ActuatorId::RightAnklePitch,
            };
            Ok(ActuatorCommand { joint, actuator, position })
        },
    }
}

/// The pairs of the resting pose, in the order they are applied; later pairs
/// for the same joint win.
pub open spec fn initial_pose_pairs() -> Seq<(Joint, i32)> {
    seq![
        (Joint::RightElbowYaw, 0i32),
        (Joint::LeftElbowYaw, 0i32),
        (Joint::RightShoulderPitch, 90_000i32),
        (Joint::LeftShoulderPitch, 90_000i32),
        (Joint::RightShoulderYaw, 0i32),
        (Joint::LeftShoulderYaw, 0i32),
        (Joint::LeftAnklePitch, 0i32),
        (Joint::RightAnklePitch, 0i32),
        (Joint::LeftHipPitch, 90_000i32),
        (Joint::RightHipPitch, 0i32),
        (Joint::LeftHipYaw, 90_000i32),
        (Joint::RightHipYaw, 0i32),
        (Joint::LeftKneeYaw, 45_000i32),
        (Joint::LeftKneePitch, 45_000i32),
        (Joint::RightKneeYaw, 45_000i32),
        (Joint::RightKneePitch, 45_000i32),
        (Joint::LeftHipPitch, 45_000i32),
        (Joint::RightHipPitch, 45_000i32),
    ]
}

/// The resting pose the body takes after calibration.
pub fn initial_pose() -> (r: Frame)
    ensures
        r@ == table_of_pairs(initial_pose_pairs()),
{
    let pairs: Vec<(Joint, i32)> = vec![
        (Joint::RightElbowYaw, 0),
        (Joint::LeftElbowYaw, 0),
        (Joint::RightShoulderPitch, 90_000),
        (Joint::LeftShoulderPitch, 90_000),
        (Joint::RightShoulderYaw, 0),
        (Joint::LeftShoulderYaw, 0),
        (Joint::LeftAnklePitch, 0),
        (Joint::RightAnklePitch, 0),
        (Joint::LeftHipPitch, 90_000),
        (Joint::RightHipPitch, 0),
        (Joint::LeftHipYaw, 90_000),
        (Joint::RightHipYaw, 0),
        (Joint::LeftKneeYaw, 45_000),
        (Joint::LeftKneePitch, 45_000),
        (Joint::RightKneeYaw, 45_000),
        (Joint::RightKneePitch, 45_000),
        (Joint::LeftHipPitch, 45_000),
        (Joint::RightHipPitch, 45_000),
    ];
    proof {
        assert(pairs@ =~= initial_pose_pairs());
    }
    Frame::from_pairs(&pairs)
}

} // verus!
