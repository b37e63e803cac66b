use vstd::prelude::*;

verus! {

/// Number of canonical joints.
pub const JOINT_COUNT: usize = 28;

/// Number of physical actuators on the body.
pub const ACTUATOR_COUNT: usize = 16;

/// A canonical skeletal degree of freedom, independent of any hardware.
/// The declaration order is the iteration order everywhere in this crate.
#[derive(Debug, Clone, Copy, PartialEq, Eq, PartialOrd, Ord, Hash, Structural)]
pub enum Joint {
    LeftHipPitch,
    LeftHipYaw,
    LeftHipRoll,
    RightHipPitch,
    RightHipYaw,
    RightHipRoll,
    LeftKneePitch,
    LeftKneeYaw,
    RightKneePitch,
    RightKneeYaw,
    LeftAnklePitch,
    LeftAnkleYaw,
    RightAnklePitch,
    RightAnkleYaw,
    LeftShoulderPitch,
    LeftShoulderYaw,
    RightShoulderPitch,
    RightShoulderYaw,
    LeftElbowPitch,
    LeftElbowYaw,
    RightElbowPitch,
    RightElbowYaw,
    LeftWristPitch,
    LeftWristYaw,
    RightWristPitch,
    RightWristYaw,
    NeckPitch,
    NeckYaw,
}

/// A physical actuator. Each one has a stable integer wire value in `1..=16`.
#[derive(Debug, Clone, Copy, PartialEq, Eq, PartialOrd, Ord, Hash, Structural)]
pub enum ActuatorId {
    RightAnklePitch,
    RightKneePitch,
    RightHipRoll,
    RightHipYaw,
    RightHipPitch,
    LeftAnklePitch,
    LeftKneePitch,
    LeftHipRoll,
    LeftHipYaw,
    LeftHipPitch,
    RightElbowYaw,
    RightShoulderYaw,
    RightShoulderPitch,
    LeftShoulderPitch,
    LeftShoulderYaw,
    LeftElbowYaw,
}

/// Position of a joint in the canonical order.
pub open spec fn joint_index(j: Joint) -> int {
    match j {
        Joint::LeftHipPitch => 0,
        Joint::LeftHipYaw => 1,
        Joint::LeftHipRoll => 2,
        Joint::RightHipPitch => 3,
        Joint::RightHipYaw => 4,
        Joint::RightHipRoll => 5,
        Joint::LeftKneePitch => 6,
        Joint::LeftKneeYaw => 7,
        Joint::RightKneePitch => 8,
        Joint::RightKneeYaw => 9,
        Joint::LeftAnklePitch => 10,
        Joint::LeftAnkleYaw => 11,
        Joint::RightAnklePitch => 12,
        Joint::RightAnkleYaw => 13,
        Joint::LeftShoulderPitch => 14,
        Joint::LeftShoulderYaw => 15,
        Joint::RightShoulderPitch => 16,
        Joint::RightShoulderYaw => 17,
        Joint::LeftElbowPitch => 18,
        Joint::LeftElbowYaw => 19,
        Joint::RightElbowPitch => 20,
        Joint::RightElbowYaw => 21,
        Joint::LeftWristPitch => 22,
        Joint::LeftWristYaw => 23,
        Joint::RightWristPitch => 24,
        Joint::RightWristYaw => 25,
        Joint::NeckPitch => 26,
        Joint::NeckYaw => 27,
    }
}

/// The joint at a position of the canonical order.
pub open spec fn joint_at(i: int) -> Joint {
    if i <= 0 {
        Joint::LeftHipPitch
    } else if i == 1 {
        Joint::LeftHipYaw
    } else if i == 2 {
        Joint::LeftHipRoll
    } else if i == 3 {
        Joint::RightHipPitch
    } else if i == 4 {
        Joint::RightHipYaw
    } else if i == 5 {
        Joint::RightHipRoll
    } else if i == 6 {
        Joint::LeftKneePitch
    } else if i == 7 {
        Joint::LeftKneeYaw
    } else if i == 8 {
        Joint::RightKneePitch
    } else if i == 9 {
        Joint::RightKneeYaw
    } else if i == 10 {
        Joint::LeftAnklePitch
    } else if i == 11 {
        Joint::LeftAnkleYaw
    } else if i == 12 {
        Joint::RightAnklePitch
    } else if i == 13 {
        Joint::RightAnkleYaw
    } else if i == 14 {
        Joint::LeftShoulderPitch
    } else if i == 15 {
        Joint::LeftShoulderYaw
    } else if i == 16 {
        Joint::RightShoulderPitch
    } else if i == 17 {
        Joint::RightShoulderYaw
    } else if i == 18 {
        Joint::LeftElbowPitch
    } else if i == 19 {
        Joint::LeftElbowYaw
    } else if i == 20 {
        Joint::RightElbowPitch
    } else if i == 21 {
        Joint::RightElbowYaw
    } else if i == 22 {
        Joint::LeftWristPitch
    } else if i == 23 {
        Joint::LeftWristYaw
    } else if i == 24 {
        Joint::RightWristPitch
    } else if i == 25 {
        Joint::RightWristYaw
    } else if i == 26 {
        Joint::NeckPitch
    } else {
        Joint::NeckYaw
    }
}

/// The integer that identifies an actuator on the wire.
pub open spec fn wire_value(a: ActuatorId) -> int {
    match a {
        ActuatorId::RightAnklePitch => 1,
        ActuatorId::RightKneePitch => 2,
        ActuatorId::RightHipRoll => 3,
        ActuatorId::RightHipYaw => 4,
        ActuatorId::RightHipPitch => 5,
        ActuatorId::LeftAnklePitch => 6,
        ActuatorId::LeftKneePitch => 7,
        ActuatorId::LeftHipRoll => 8,
        ActuatorId::LeftHipYaw => 9,
        ActuatorId::LeftHipPitch => 10,
        ActuatorId::RightElbowYaw => 11,
        ActuatorId::RightShoulderYaw => 12,
        ActuatorId::RightShoulderPitch => 13,
        ActuatorId::LeftShoulderPitch => 14,
        ActuatorId::LeftShoulderYaw => 15,
        ActuatorId::LeftElbowYaw => 16,
    }
}

/// Position of an actuator in tables indexed by actuator.
pub open spec fn actuator_index(a: ActuatorId) -> int {
    wire_value(a) - 1
}

/// The actuator whose wire value is `v`, if there is one.
pub open spec fn actuator_with_wire(v: int) -> Option<ActuatorId> {
    if v == 1 {
        Some(ActuatorId::RightAnklePitch)
    } else if v == 2 {
        Some(ActuatorId::RightKneePitch)
    } else if v == 3 {
        Some(ActuatorId::RightHipRoll)
    } else if v == 4 {
        Some(ActuatorId::RightHipYaw)
    } else if v == 5 {
        Some(ActuatorId::RightHipPitch)
    } else if v == 6 {
        Some(ActuatorId::LeftAnklePitch)
    } else if v == 7 {
        Some(ActuatorId::LeftKneePitch)
    } else if v == 8 {
        Some(ActuatorId::LeftHipRoll)
    } else if v == 9 {
        Some(ActuatorId::LeftHipYaw)
    } else if v == 10 {
        Some(ActuatorId::LeftHipPitch)
    } else if v == 11 {
        Some(ActuatorId::RightElbowYaw)
    } else if v == 12 {
        Some(ActuatorId::RightShoulderYaw)
    } else if v == 13 {
        Some(ActuatorId::RightShoulderPitch)
    } else if v == 14 {
        Some(ActuatorId::LeftShoulderPitch)
    } else if v == 15 {
        Some(ActuatorId::LeftShoulderYaw)
    } else if v == 16 {
        Some(ActuatorId::LeftElbowYaw)
    } else {
        None
    }
}

/// The joint mapping: which actuator drives a canonical joint, if any.
/// The knee yaw joints are driven by the hip roll actuators.
pub open spec fn actuator_of(j: Joint) -> Option<ActuatorId> {
    match j {
        Joint::LeftHipPitch => Some(ActuatorId::LeftHipPitch),
        Joint::LeftHipYaw => Some(ActuatorId::LeftHipYaw),
        Joint::RightHipPitch => Some(ActuatorId::RightHipPitch),
        Joint::RightHipYaw => Some(ActuatorId::RightHipYaw),
        Joint::LeftKneePitch => Some(ActuatorId::LeftKneePitch),
        Joint::LeftKneeYaw => Some(ActuatorId::LeftHipRoll),
        Joint::RightKneePitch => Some(ActuatorId::RightKneePitch),
        Joint::RightKneeYaw => Some(ActuatorId::RightHipRoll),
        Joint::LeftAnklePitch => Some(ActuatorId::LeftAnklePitch),
        Joint::RightAnklePitch => Some(ActuatorId::RightAnklePitch),
        Joint::LeftShoulderPitch => Some(ActuatorId::LeftShoulderPitch),
        Joint::LeftShoulderYaw => Some(ActuatorId::LeftShoulderYaw),
        Joint::RightShoulderPitch => Some(ActuatorId::RightShoulderPitch),
        Joint::RightShoulderYaw => Some(ActuatorId::RightShoulderYaw),
        Joint::LeftElbowYaw => Some(ActuatorId::LeftElbowYaw),
        Joint::RightElbowYaw => Some(ActuatorId::RightElbowYaw),
        _ => None,
    }
}

/// The joint that an actuator drives.
pub open spec fn joint_of(a: ActuatorId) -> Joint {
    match a {
        ActuatorId::LeftHipPitch => Joint::LeftHipPitch,
        ActuatorId::LeftHipYaw => Joint::LeftHipYaw,
        ActuatorId::RightHipPitch => Joint::RightHipPitch,
        ActuatorId::RightHipYaw => Joint::RightHipYaw,
        ActuatorId::LeftKneePitch => Joint::LeftKneePitch,
        ActuatorId::LeftHipRoll => Joint::LeftKneeYaw,
        ActuatorId::RightKneePitch => Joint::RightKneePitch,
        ActuatorId::RightHipRoll => Joint::RightKneeYaw,
        ActuatorId::LeftAnklePitch => Joint::LeftAnklePitch,
        ActuatorId::RightAnklePitch => Joint::RightAnklePitch,
        ActuatorId::LeftShoulderPitch => Joint::LeftShoulderPitch,
        ActuatorId::LeftShoulderYaw => Joint::LeftShoulderYaw,
        ActuatorId::RightShoulderPitch => Joint::RightShoulderPitch,
        ActuatorId::RightShoulderYaw => Joint::RightShoulderYaw,
        ActuatorId::LeftElbowYaw => Joint::LeftElbowYaw,
        ActuatorId::RightElbowYaw => Joint::RightElbowYaw,
    }
}

/// The canonical order is a bijection between joints and `0..JOINT_COUNT`.
pub proof fn lemma_joint_index_bijective()
    ensures
        forall|j: Joint| #![auto] 0 <= joint_index(j) < JOINT_COUNT && joint_at(joint_index(j)) == j,
        forall|i: int| #![auto] 0 <= i < JOINT_COUNT ==> joint_index(joint_at(i)) == i,
{
}

/// The joint mapping is one to one, and every actuator drives exactly the
/// joint that `joint_of` names.
pub proof fn lemma_mapping_bijective()
    ensures
        forall|a: ActuatorId| #![auto] actuator_of(joint_of(a)) == Some(a),
        forall|j: Joint| #![auto] actuator_of(j) is Some ==> joint_of(actuator_of(j)->0) == j,
        forall|a: ActuatorId| 1 <= #[trigger] wire_value(a) <= ACTUATOR_COUNT,
        forall|a: ActuatorId| #![auto] actuator_with_wire(wire_value(a)) == Some(a),
        forall|v: int| #![auto] actuator_with_wire(v) is Some ==> wire_value(actuator_with_wire(v)->0) == v,
{
}

impl Joint {
    /// Position of this joint in the canonical order.
    pub fn index(self) -> (r: usize)
        ensures
            r as int == joint_index(self),
            r < JOINT_COUNT,
    {
        match self {
            Joint::LeftHipPitch => 0,
            Joint::LeftHipYaw => 1,
            Joint::LeftHipRoll => 2,
            Joint::RightHipPitch => 3,
            Joint::RightHipYaw => 4,
            Joint::RightHipRoll => 5,
            Joint::LeftKneePitch => 6,
            Joint::LeftKneeYaw => 7,
            Joint::RightKneePitch => 8,
            Joint::RightKneeYaw => 9,
            Joint::LeftAnklePitch => 10,
            Joint::LeftAnkleYaw => 11,
            Joint::RightAnklePitch => 12,
            Joint::RightAnkleYaw => 13,
            Joint::LeftShoulderPitch => 14,
            Joint::LeftShoulderYaw => 15,
            Joint::RightShoulderPitch => 16,
            Joint::RightShoulderYaw => 17,
            Joint::LeftElbowPitch => 18,
            Joint::LeftElbowYaw => 19,
            Joint::RightElbowPitch => 20,
            Joint::RightElbowYaw => 21,
            Joint::LeftWristPitch => 22,
            Joint::LeftWristYaw => 23,
            Joint::RightWristPitch => 24,
            Joint::RightWristYaw => 25,
            Joint::NeckPitch => 26,
            Joint::NeckYaw => 27,
        }
    }

    /// The joint at position `i` of the canonical order.
    pub fn from_index(i: usize) -> (r: Joint)
        requires
            i < JOINT_COUNT,
        ensures
            r == joint_at(i as int),
            joint_index(r) == i,
    {
        if i == 0 {
            Joint::LeftHipPitch
        } else if i == 1 {
            Joint::LeftHipYaw
        } else if i == 2 {
            Joint::LeftHipRoll
        } else if i == 3 {
            Joint::RightHipPitch
        } else if i == 4 {
            Joint::RightHipYaw
        } else if i == 5 {
            Joint::RightHipRoll
        } else if i == 6 {
            Joint::LeftKneePitch
        } else if i == 7 {
            Joint::LeftKneeYaw
        } else if i == 8 {
            Joint::RightKneePitch
        } else if i == 9 {
            Joint::RightKneeYaw
        } else if i == 10 {
            Joint::LeftAnklePitch
        } else if i == 11 {
            Joint::LeftAnkleYaw
        } else if i == 12 {
            Joint::RightAnklePitch
        } else if i == 13 {
            Joint::RightAnkleYaw
        } else if i == 14 {
            Joint::LeftShoulderPitch
        } else if i == 15 {
            Joint::LeftShoulderYaw
        } else if i == 16 {
            Joint::RightShoulderPitch
        } else if i == 17 {
            Joint::RightShoulderYaw
        } else if i == 18 {
            Joint::LeftElbowPitch
        } else if i == 19 {
            Joint::LeftElbowYaw
        } else if i == 20 {
            Joint::RightElbowPitch
        } else if i == 21 {
            Joint::RightElbowYaw
        } else if i == 22 {
            Joint::LeftWristPitch
        } else if i == 23 {
            Joint::LeftWristYaw
        } else if i == 24 {
            Joint::RightWristPitch
        } else if i == 25 {
            Joint::RightWristYaw
        } else if i == 26 {
            Joint::NeckPitch
        } else {
            Joint::NeckYaw
        }
    }

    /// The actuator that drives this joint; `None` for a joint that the body
    /// does not actuate.
    pub fn actuator(self) -> (r: Option<ActuatorId>)
        ensures
            r == actuator_of(self),
    {
        match self {
            Joint::LeftHipPitch => Some(ActuatorId::LeftHipPitch),
            Joint::LeftHipYaw => Some(ActuatorId::LeftHipYaw),
            Joint::RightHipPitch => Some(ActuatorId::RightHipPitch),
            Joint::RightHipYaw => Some(ActuatorId::RightHipYaw),
            Joint::LeftKneePitch => Some(ActuatorId::LeftKneePitch),
            Joint::LeftKneeYaw => Some(ActuatorId::LeftHipRoll),
            Joint::RightKneePitch => Some(ActuatorId::RightKneePitch),
            Joint::RightKneeYaw => Some(ActuatorId::RightHipRoll),
            Joint::LeftAnklePitch => Some(ActuatorId::LeftAnklePitch),
            Joint::RightAnklePitch => Some(ActuatorId::RightAnklePitch),
            Joint::LeftShoulderPitch => Some(ActuatorId::LeftShoulderPitch),
            Joint::LeftShoulderYaw => Some(ActuatorId::LeftShoulderYaw),
            Joint::RightShoulderPitch => Some(ActuatorId::RightShoulderPitch),
            Joint::RightShoulderYaw => Some(ActuatorId::RightShoulderYaw),
            Joint::LeftElbowYaw => Some(ActuatorId::LeftElbowYaw),
            Joint::RightElbowYaw => Some(ActuatorId::RightElbowYaw),
            _ => None,
        }
    }

    /// The joint that actuator `a` drives.
    pub fn driven_by(a: ActuatorId) -> (r: Joint)
        ensures
            r == joint_of(a),
            actuator_of(r) == Some(a),
    {
        match a {
            ActuatorId::LeftHipPitch => Joint::LeftHipPitch,
            ActuatorId::LeftHipYaw => Joint::LeftHipYaw,
            ActuatorId::RightHipPitch => Joint::RightHipPitch,
            ActuatorId::RightHipYaw => Joint::RightHipYaw,
            ActuatorId::LeftKneePitch => Joint::LeftKneePitch,
            ActuatorId::LeftHipRoll => Joint::LeftKneeYaw,
            ActuatorId::RightKneePitch => Joint::RightKneePitch,
            ActuatorId::RightHipRoll => Joint::RightKneeYaw,
            ActuatorId::LeftAnklePitch => Joint::LeftAnklePitch,
            ActuatorId::RightAnklePitch => Joint::RightAnklePitch,
            ActuatorId::LeftShoulderPitch => Joint::LeftShoulderPitch,
            ActuatorId::LeftShoulderYaw => Joint::LeftShoulderYaw,
            ActuatorId::RightShoulderPitch => Joint::RightShoulderPitch,
            ActuatorId::RightShoulderYaw => Joint::RightShoulderYaw,
            ActuatorId::LeftElbowYaw => Joint::LeftElbowYaw,
            ActuatorId::RightElbowYaw => Joint::RightElbowYaw,
        }
    }
}

impl ActuatorId {
    /// The integer that identifies this actuator on the wire.
    pub fn wire(self) -> (r: i32)
        ensures
            r as int == wire_value(self),
            1 <= r <= 16,
    {
        match self {
            ActuatorId::RightAnklePitch => 1,
            ActuatorId::RightKneePitch => 2,
            ActuatorId::RightHipRoll => 3,
            ActuatorId::RightHipYaw => 4,
            ActuatorId::RightHipPitch => 5,
            ActuatorId::LeftAnklePitch => 6,
            ActuatorId::LeftKneePitch => 7,
            ActuatorId::LeftHipRoll => 8,
            ActuatorId::LeftHipYaw => 9,
            ActuatorId::LeftHipPitch => 10,
            ActuatorId::RightElbowYaw => 11,
            ActuatorId::RightShoulderYaw => 12,
            ActuatorId::RightShoulderPitch => 13,
            ActuatorId::LeftShoulderPitch => 14,
            ActuatorId::LeftShoulderYaw => 15,
            ActuatorId::LeftElbowYaw => 16,
        }
    }

    /// Position of this actuator in tables indexed by actuator.
    pub fn index(self) -> (r: usize)
        ensures
            r as int == actuator_index(self),
            r < ACTUATOR_COUNT,
    {
        let w = self.wire();
        (w - 1) as usize
    }

    /// The actuator with wire value `v`; `None` outside `1..=16`.
    pub fn from_wire(v: i32) -> (r: Option<ActuatorId>)
        ensures
            r == actuator_with_wire(v as int),
            r is Some <==> 1 <= v <= 16,
    {
        if v == 1 {
            Some(ActuatorId::RightAnklePitch)
        } else if v == 2 {
            Some(ActuatorId::RightKneePitch)
        } else if v == 3 {
            Some(ActuatorId::RightHipRoll)
        } else if v == 4 {
            Some(ActuatorId::RightHipYaw)
        } else if v == 5 {
            Some(ActuatorId::RightHipPitch)
        } else if v == 6 {
            Some(ActuatorId::LeftAnklePitch)
        } else if v == 7 {
            Some(ActuatorId::LeftKneePitch)
        } else if v == 8 {
            Some(ActuatorId::LeftHipRoll)
        } else if v == 9 {
            Some(ActuatorId::LeftHipYaw)
        } else if v == 10 {
            Some(ActuatorId::LeftHipPitch)
        } else if v == 11 {
            Some(ActuatorId::RightElbowYaw)
        } else if v == 12 {
            Some(ActuatorId::RightShoulderYaw)
        } else if v == 13 {
            Some(ActuatorId::RightShoulderPitch)
        } else if v == 14 {
            Some(ActuatorId::LeftShoulderPitch)
        } else if v == 15 {
            Some(ActuatorId::LeftShoulderYaw)
        } else if v == 16 {
            Some(ActuatorId::LeftElbowYaw)
        } else {
            None
        }
    }

    /// The actuator at position `i` of tables indexed by actuator.
    pub fn from_index(i: usize) -> (r: ActuatorId)
        requires
            i < ACTUATOR_COUNT,
        ensures
            actuator_index(r) == i,
    {
        let w: i32 = (i + 1) as i32;
        match ActuatorId::from_wire(w) {
            Some(a) => a,
            None => ActuatorId::RightAnklePitch,
        }
    }
}

} // verus!
