use vstd::prelude::*;

use vstd::arithmetic::div_mod::{lemma_fundamental_div_mod, lemma_fundamental_div_mod_converse};

use crate::error::Error;
use crate::frame::Frame;
use crate::joint::{
    actuator_index, actuator_of, joint_at, joint_index, lemma_joint_index_bijective,
    lemma_mapping_bijective, ActuatorId, Joint, ACTUATOR_COUNT, JOINT_COUNT,
};

verus! {

/// Thousandths of a degree in one right angle.
pub const RIGHT_ANGLE: i32 = 90_000;

/// The physical range that an actuator reports for itself.
#[derive(Debug, Clone, Copy, PartialEq, Eq, Structural)]
pub struct ActuatorRange {
    pub min: i32,
    pub max: i32,
}

/// How a canonical angle becomes a physical one for one joint:
/// `(offset ± value) * (max - min) / basis + min`, where the sign is minus
/// when the joint is mounted inverted.
#[derive(Debug, Clone, Copy, PartialEq, Eq, Structural)]
pub struct TransformSpec {
    pub actuator: ActuatorId,
    pub offset: i32,
    pub invert: bool,
    pub basis: i32,
}

/// One entry of a batched write: drive `actuator` (which moves `joint`) to
/// the physical `position`.
#[derive(Debug, Clone, Copy, PartialEq, Eq, Structural)]
pub struct ActuatorCommand {
    pub joint: Joint,
    pub actuator: ActuatorId,
    pub position: i64,
}

/// Per-actuator ranges discovered from the hardware. An actuator without a
/// range has not been calibrated.
#[derive(Debug, Clone, Copy, PartialEq, Eq)]
pub struct CalibrationProfile {
    pub ranges: [Option<ActuatorRange>; ACTUATOR_COUNT],
}

spec fn transform(actuator: ActuatorId, offset: int, invert: bool, basis: int) -> TransformSpec {
    TransformSpec { actuator, offset: offset as i32, invert, basis: basis as i32 }
}

/// The transform table: mounting offset, inversion and basis of each actuated
/// joint. Unactuated joints have no entry.
pub open spec fn transform_of(j: Joint) -> Option<TransformSpec> {
    match j {
        Joint::LeftHipPitch => Some(TransformSpec { actuator: ActuatorId::LeftHipPitch, offset: 0, invert: false, basis: 90_000 }),
        Joint::LeftHipYaw => Some(TransformSpec { actuator: ActuatorId::LeftHipYaw, offset: 0, invert: false, basis: 90_000 }),
        Joint::RightHipPitch => Some(TransformSpec { actuator: ActuatorId::RightHipPitch, offset: 0, invert: false, basis: 90_000 }),
        Joint::RightHipYaw => Some(TransformSpec { actuator: ActuatorId::RightHipYaw, offset: 0, invert: false, basis: 90_000 }),
        Joint::LeftKneePitch => Some(TransformSpec { actuator: ActuatorId::LeftKneePitch, offset: 0, invert: false, basis: 90_000 }),
        Joint::LeftKneeYaw => Some(TransformSpec { actuator: ActuatorId::LeftHipRoll, offset: 0, invert: false, basis: 90_000 }),
        Joint::RightKneePitch => Some(TransformSpec { actuator: ActuatorId::RightKneePitch, offset: 0, invert: false, basis: 90_000 }),
        Joint::RightKneeYaw => Some(TransformSpec { actuator: ActuatorId::RightHipRoll, offset: 0, invert: false, basis: 90_000 }),
        Joint::LeftAnklePitch => Some(TransformSpec { actuator: ActuatorId::LeftAnklePitch, offset: 45_000, invert: false, basis: 90_000 }),
        Joint::RightAnklePitch => Some(TransformSpec { actuator: ActuatorId::RightAnklePitch, offset: 45_000, invert: false, basis: 90_000 }),
        Joint::LeftShoulderPitch => Some(TransformSpec { actuator: ActuatorId::LeftShoulderPitch, offset: 45_000, invert: false, basis: 90_000 }),
        Joint::LeftShoulderYaw => Some(TransformSpec { actuator: ActuatorId::LeftShoulderYaw, offset: 0, invert: false, basis: 90_000 }),
        Joint::RightShoulderPitch => Some(TransformSpec { actuator: ActuatorId::RightShoulderPitch, offset: 45_000, invert: true, basis: 90_000 }),
        Joint::RightShoulderYaw => Some(TransformSpec { actuator: ActuatorId::RightShoulderYaw, offset: 90_000, invert: true, basis: 90_000 }),
        Joint::LeftElbowYaw => Some(TransformSpec { actuator: ActuatorId::LeftElbowYaw, offset: 90_000, invert: false, basis: 180_000 }),
        Joint::RightElbowYaw => Some(TransformSpec { actuator: ActuatorId::RightElbowYaw, offset: 90_000, invert: true, basis: 180_000 }),
        _ => None,
    }
}

/// The canonical angle after the joint's offset and inversion.
pub open spec fn adjusted(t: TransformSpec, value: int) -> int {
    if t.invert {
        t.offset - value
    } else {
        t.offset + value
    }
}

/// The affine map from a canonical angle to a physical one, rounding down.
pub open spec fn physical_value(t: TransformSpec, r: ActuatorRange, value: int) -> int {
    adjusted(t, value) * (r.max - r.min) / (t.basis as int) + r.min
}

/// What translating `value` for `joint` under a profile gives.
pub open spec fn translation(ranges: Seq<Option<ActuatorRange>>, joint: Joint, value: int) -> Result<int, Error> {
    match transform_of(joint) {
        None => Err(Error::UnsupportedJoint { joint }),
        Some(t) => match ranges[actuator_index(t.actuator)] {
            None => Err(Error::ServoNotFound),
            Some(r) => Ok(physical_value(t, r, value)),
        },
    }
}

/// The batched write for the first `n` joints of a frame table, in canonical
/// order; the first joint that cannot be translated decides the error.
pub open spec fn batch_upto(ranges: Seq<Option<ActuatorRange>>, table: Seq<Option<i32>>, n: int) -> Result<Seq<ActuatorCommand>, Error>
    decreases n,
{
    if n <= 0 {
        Ok(Seq::empty())
    } else {
        match batch_upto(ranges, table, n - 1) {
            Err(e) => Err(e),
            Ok(cmds) => match table[n - 1] {
                None => Ok(cmds),
                Some(v) => match translation(ranges, joint_at(n - 1), v as int) {
                    Err(e) => Err(e),
                    Ok(p) => Ok(cmds.push(ActuatorCommand {
                        joint: joint_at(n - 1),
                        actuator: transform_of(joint_at(n - 1))->0.actuator,
                        position: p as i64,
                    })),
                },
            },
        }
    }
}

/// The per-joint outcome of translating the first `n` joints of a frame
/// table, in canonical order.
pub open spec fn report_upto(ranges: Seq<Option<ActuatorRange>>, table: Seq<Option<i32>>, n: int) -> Seq<(Joint, Result<int, Error>)>
    decreases n,
{
    if n <= 0 {
        Seq::empty()
    } else {
        match table[n - 1] {
            None => report_upto(ranges, table, n - 1),
            Some(v) => report_upto(ranges, table, n - 1).push((joint_at(n - 1), translation(ranges, joint_at(n - 1), v as int))),
        }
    }
}

/// The batched write for a whole frame.
pub open spec fn batch_for(ranges: Seq<Option<ActuatorRange>>, frame: Frame) -> Result<Seq<ActuatorCommand>, Error> {
    batch_upto(ranges, frame@, JOINT_COUNT as int)
}

/// Every transform names the actuator of the joint mapping, and has a
/// positive basis of at least a right angle.
pub proof fn lemma_transform_table()
    ensures
        forall|j: Joint| #![auto] (transform_of(j) is Some) == (actuator_of(j) is Some),
        forall|j: Joint| #![auto] transform_of(j) is Some ==> (
            Some(transform_of(j)->0.actuator) == actuator_of(j)
            && transform_of(j)->0.basis >= RIGHT_ANGLE
            && 0 <= transform_of(j)->0.offset <= RIGHT_ANGLE),
{
}

/// A degenerate range (min equal to max) makes every canonical angle of
/// the joint translate to `min`.
pub proof fn lemma_degenerate_range(ranges: Seq<Option<ActuatorRange>>, j: Joint, r: ActuatorRange, value: int)
    requires
        transform_of(j) is Some,
        ranges[actuator_index(transform_of(j)->0.actuator)] == Some(r),
        r.min == r.max,
    ensures
        translation(ranges, j, value) == Ok::<int, Error>(r.min as int),
{
    let t = transform_of(j)->0;
    assert(adjusted(t, value) * (r.max - r.min) == 0) by (nonlinear_arith)
        requires r.max - r.min == 0;
}

/// With an identity-style calibration (range `0..=RIGHT_ANGLE`), a joint with
/// no offset and no inversion translates every angle to itself.
pub proof fn lemma_identity_calibration(ranges: Seq<Option<ActuatorRange>>, j: Joint, value: int)
    requires
        transform_of(j) is Some,
        transform_of(j)->0.offset == 0,
        !transform_of(j)->0.invert,
        transform_of(j)->0.basis == RIGHT_ANGLE,
        ranges[actuator_index(transform_of(j)->0.actuator)] == Some(ActuatorRange { min: 0, max: RIGHT_ANGLE }),
    ensures
        translation(ranges, j, value) == Ok::<int, Error>(value),
{
    let t = transform_of(j)->0;
    assert(adjusted(t, value) == value);
    lemma_fundamental_div_mod_converse(value * 90_000, 90_000, value, 0);
}

/// A frame that targets an unactuated joint is rejected as a whole: the
/// batch fails and no command is produced. With every actuator calibrated
/// the failure is `UnsupportedJoint`, naming an unactuated joint of the
/// frame.
pub proof fn lemma_batch_rejects_unmapped(ranges: Seq<Option<ActuatorRange>>, frame: Frame, j: Joint)
    requires
        frame.target(j) is Some,
        transform_of(j) is None,
    ensures
        batch_for(ranges, frame) is Err,
        (ranges.len() == ACTUATOR_COUNT && forall|i: int| 0 <= i < ACTUATOR_COUNT ==> #[trigger] ranges[i] is Some)
            ==> match batch_for(ranges, frame) {
                Err(Error::UnsupportedJoint { joint }) => transform_of(joint) is None && frame.target(joint) is Some,
                _ => false,
            },
{
    lemma_joint_index_bijective();
    lemma_batch_fails_past(ranges, frame@, JOINT_COUNT as int, joint_index(j));
    if ranges.len() == ACTUATOR_COUNT && forall|i: int| 0 <= i < ACTUATOR_COUNT ==> #[trigger] ranges[i] is Some {
        lemma_batch_errors_unmapped(ranges, frame@, JOINT_COUNT as int);
    }
}

proof fn lemma_batch_fails_past(ranges: Seq<Option<ActuatorRange>>, table: Seq<Option<i32>>, n: int, k: int)
    requires
        0 <= k < n,
        table[k] is Some,
        transform_of(joint_at(k)) is None,
    ensures
        batch_upto(ranges, table, n) is Err,
    decreases n,
{
    if k < n - 1 {
        lemma_batch_fails_past(ranges, table, n - 1, k);
    }
}

proof fn lemma_batch_errors_unmapped(ranges: Seq<Option<ActuatorRange>>, table: Seq<Option<i32>>, n: int)
    requires
        ranges.len() == ACTUATOR_COUNT,
        forall|i: int| 0 <= i < ACTUATOR_COUNT ==> #[trigger] ranges[i] is Some,
        0 <= n <= JOINT_COUNT,
    ensures
        match batch_upto(ranges, table, n) {
            Err(Error::UnsupportedJoint { joint }) => transform_of(joint) is None
                && 0 <= joint_index(joint) < n && table[joint_index(joint)] is Some,
            Err(_) => false,
            Ok(_) => true,
        },
    decreases n,
{
    lemma_joint_index_bijective();
    lemma_transform_table();
    lemma_mapping_bijective();
    if n > 0 {
        lemma_batch_errors_unmapped(ranges, table, n - 1);
    }
}

/// Floor division by a positive divisor, as the spec's `/` is.
fn floor_div(num: i128, d: i128) -> (q: i128)
    requires
        d > 0,
        -0x1_0000_0000_0000_0000_0000 <= num <= 0x1_0000_0000_0000_0000_0000,
    ensures
        q as int == num as int / d as int,
{
    if num >= 0 {
        let q = ((num as u128) / (d as u128)) as i128;
        q
    } else {
        let m: i128 = -num - 1;
        let qm = ((m as u128) / (d as u128)) as i128;
        proof {
            let mi = m as int;
            let di = d as int;
            lemma_fundamental_div_mod(mi, di);
            let r = mi % di;
            assert(0 <= r < di);
            assert(num as int == (-(mi / di) - 1) * di + (di - r - 1)) by (nonlinear_arith)
                requires
                    mi == di * (mi / di) + r,
                    num as int == -mi - 1,
            ;
            lemma_fundamental_div_mod_converse(num as int, di, -(mi / di) - 1, di - r - 1);
            assert(qm as int == mi / di);
            assert(0 <= mi / di <= mi) by {
                vstd::arithmetic::div_mod::lemma_div_pos_is_pos(mi, di);
                vstd::arithmetic::div_mod::lemma_div_is_ordered_by_denominator(mi, 1, di);
            }
        }
        -qm - 1
    }
}

impl TransformSpec {
    /// The transform-table entry of `joint`; `None` for an unactuated joint.
    pub fn for_joint(joint: Joint) -> (r: Option<TransformSpec>)
        ensures
            r == transform_of(joint),
    {
        let (actuator, offset, invert, basis): (ActuatorId, i32, bool, i32) = match joint {
            Joint::LeftHipPitch => (ActuatorId::LeftHipPitch, 0, false, 90_000),
            Joint::LeftHipYaw => (ActuatorId::LeftHipYaw, 0, false, 90_000),
            Joint::RightHipPitch => (ActuatorId::RightHipPitch, 0, false, 90_000),
            Joint::RightHipYaw => (ActuatorId::RightHipYaw, 0, false, 90_000),
            Joint::LeftKneePitch => (ActuatorId::LeftKneePitch, 0, false, 90_000),
            Joint::LeftKneeYaw => (ActuatorId::LeftHipRoll, 0, false, 90_000),
            Joint::RightKneePitch => (ActuatorId::RightKneePitch, 0, false, 90_000),
            Joint::RightKneeYaw => (ActuatorId::RightHipRoll, 0, false, 90_000),
            Joint::LeftAnklePitch => (ActuatorId::LeftAnklePitch, 45_000, false, 90_000),
            Joint::RightAnklePitch => (ActuatorId::RightAnklePitch, 45_000, false, 90_000),
            Joint::LeftShoulderPitch => (ActuatorId::LeftShoulderPitch, 45_000, false, 90_000),
            Joint::LeftShoulderYaw => (ActuatorId::LeftShoulderYaw, 0, false, 90_000),
            Joint::RightShoulderPitch => (ActuatorId::RightShoulderPitch, 45_000, true, 90_000),
            Joint::RightShoulderYaw => (ActuatorId::RightShoulderYaw, 90_000, true, 90_000),
            Joint::LeftElbowYaw => (ActuatorId::LeftElbowYaw, 90_000, false, 180_000),
            Joint::RightElbowYaw => (ActuatorId::RightElbowYaw, 90_000, true, 180_000),
            _ => {
                return None;
            },
        };
        Some(TransformSpec { actuator, offset, invert, basis })
    }

    /// The physical value for canonical `value` on an actuator with range `r`.
    pub fn apply(&self, r: ActuatorRange, value: i32) -> (out: i64)
        requires
            self.basis >= RIGHT_ANGLE,
            0 <= self.offset <= RIGHT_ANGLE,
        ensures
            out as int == physical_value(*self, r, value as int),
    {
        let f: i64 = if self.invert {
            self.offset as i64 - value as i64
        } else {
            self.offset as i64 + value as i64
        };
        let span: i64 = r.max as i64 - r.min as i64;
        proof {
            assert(-0x1_0000_0000 <= f <= 0x1_0000_0000);
            assert(-0x1_0000_0000 <= span <= 0x1_0000_0000);
            assert(-0x1_0000_0000_0000_0000 <= f * span <= 0x1_0000_0000_0000_0000) by (nonlinear_arith)
                requires
                    -0x1_0000_0000 <= f <= 0x1_0000_0000,
                    -0x1_0000_0000 <= span <= 0x1_0000_0000,
            ;
        }
        let num: i128 = f as i128 * span as i128;
        let q = floor_div(num, self.basis as i128);
        proof {
            let b = self.basis as int;
            let n = num as int;
            assert(-0x1_0000_0000_0000 <= n / b <= 0x1_0000_0000_0000) by {
                vstd::arithmetic::div_mod::lemma_div_is_ordered(n, 0x1_0000_0000_0000_0000, b);
                vstd::arithmetic::div_mod::lemma_div_is_ordered(-0x1_0000_0000_0000_0000, n, b);
                vstd::arithmetic::div_mod::lemma_div_is_ordered_by_denominator(0x1_0000_0000_0000_0000, 65536, b);
                assert(0x1_0000_0000_0000_0000int / 65536 == 0x1_0000_0000_0000);
                assert(-0x1_0000_0000_0000_0000int / b >= -0x1_0000_0000_0000) by {
                    lemma_fundamental_div_mod(-0x1_0000_0000_0000_0000, b);
                    let qq = -0x1_0000_0000_0000_0000int / b;
                    let rr = -0x1_0000_0000_0000_0000int % b;
                    assert(qq >= -0x1_0000_0000_0000) by (nonlinear_arith)
                        requires
                            -0x1_0000_0000_0000_0000 == b * qq + rr,
                            0 <= rr < b,
                            b >= 65536,
                    ;
                }
            }
        }
        (q + r.min as i128) as i64
    }
}

impl CalibrationProfile {
    /// The ranges, indexed by actuator position.
    pub open spec fn view(&self) -> Seq<Option<ActuatorRange>> {
        self.ranges@
    }

    /// A profile in which no actuator has been calibrated.
    pub fn empty() -> (r: CalibrationProfile)
        ensures
            r@ == Seq::new(ACTUATOR_COUNT as nat, |i: int| None::<ActuatorRange>),
    {
        let r = CalibrationProfile { ranges: [None; ACTUATOR_COUNT] };
        proof {
            assert(r@ =~= Seq::new(ACTUATOR_COUNT as nat, |i: int| None::<ActuatorRange>));
        }
        r
    }

    /// The calibrated range of `a`, if any.
    pub fn range(&self, a: ActuatorId) -> (r: Option<ActuatorRange>)
        ensures
            r == self@[actuator_index(a)],
    {
        self.ranges[a.index()]
    }

    /// Translates a canonical angle for `joint` into the physical value its
    /// actuator expects. Fails with `UnsupportedJoint` for an unactuated joint
    /// and with `ServoNotFound` when its actuator was never calibrated.
    pub fn translate(&self, joint: Joint, value: i32) -> (r: Result<i64, Error>)
        ensures
            match (r, translation(self@, joint, value as int)) {
                (Ok(p), Ok(q)) => p as int == q,
                (Err(e), Err(f)) => e == f,
                _ => false,
            },
    {
        proof {
            lemma_transform_table();
        }
        match TransformSpec::for_joint(joint) {
            None => Err(Error::UnsupportedJoint { joint }),
            Some(t) => match self.range(t.actuator) {
                None => Err(Error::ServoNotFound),
                Some(range) => Ok(t.apply(range, value)),
            },
        }
    }

    /// The one batched write that drives every joint of `frame`, in canonical
    /// order. All or nothing: if any joint of the frame cannot be translated,
    /// no command is produced and the first such joint's error is returned.
    pub fn translate_frame(&self, frame: &Frame) -> (r: Result<Vec<ActuatorCommand>, Error>)
        ensures
            match (r, batch_for(self@, *frame)) {
                (Ok(cmds), Ok(s)) => cmds@ == s,
                (Err(e), Err(f)) => e == f,
                _ => false,
            },
    {
        let mut cmds: Vec<ActuatorCommand> = Vec::new();
        let mut i: usize = 0;
        proof {
            lemma_transform_table();
            lemma_joint_index_bijective();
        }
        while i < JOINT_COUNT
            invariant
                i <= JOINT_COUNT,
                batch_upto(self@, frame@, i as int) == Ok::<Seq<ActuatorCommand>, Error>(cmds@),
            decreases JOINT_COUNT - i,
        {
            match frame.joints[i] {
                None => {},
                Some(v) => {
                    let joint = Joint::from_index(i);
                    match self.translate(joint, v) {
                        Err(e) => {
                            proof {
                                lemma_batch_error_sticks(self@, frame@, i as int + 1, JOINT_COUNT as int);
                            }
                            return Err(e);
                        },
                        Ok(p) => {
                            let actuator = match TransformSpec::for_joint(joint) {
                                Some(t) => t.actuator,
                                None => joint.actuator().unwrap(),
                            };
                            cmds.push(ActuatorCommand { joint, actuator, position: p });
                        },
                    }
                },
            }
            i = i + 1;
        }
        Ok(cmds)
    }
}

impl CalibrationProfile {
    /// Translates every joint of `frame` on its own, in canonical order, and
    /// reports for each joint its physical value or its own error; a failing
    /// joint does not affect the others.
    pub fn translate_each(&self, frame: &Frame) -> (r: Vec<(Joint, Result<i64, Error>)>)
        ensures
            r@.len() == report_upto(self@, frame@, JOINT_COUNT as int).len(),
            forall|k: int| 0 <= k < r@.len() ==> {
                let (j, res) = #[trigger] r@[k];
                let (sj, sres) = report_upto(self@, frame@, JOINT_COUNT as int)[k];
                &&& j == sj
                &&& match (res, sres) {
                    (Ok(p), Ok(q)) => p as int == q,
                    (Err(e), Err(f)) => e == f,
                    _ => false,
                }
            },
    {
        let mut out: Vec<(Joint, Result<i64, Error>)> = Vec::new();
        let mut i: usize = 0;
        while i < JOINT_COUNT
            invariant
                i <= JOINT_COUNT,
                out@.len() == report_upto(self@, frame@, i as int).len(),
                forall|k: int| 0 <= k < out@.len() ==> {
                    let (j, res) = #[trigger] out@[k];
                    let (sj, sres) = report_upto(self@, frame@, i as int)[k];
                    &&& j == sj
                    &&& match (res, sres) {
                        (Ok(p), Ok(q)) => p as int == q,
                        (Err(e), Err(f)) => e == f,
                        _ => false,
                    }
                },
            decreases JOINT_COUNT - i,
        {
            match frame.joints[i] {
                None => {},
                Some(v) => {
                    let joint = Joint::from_index(i);
                    let res = self.translate(joint, v);
                    out.push((joint, res));
                },
            }
            i = i + 1;
        }
        out
    }
}

/// Once a prefix of a batch fails, every longer prefix fails the same way.
proof fn lemma_batch_error_sticks(ranges: Seq<Option<ActuatorRange>>, table: Seq<Option<i32>>, n: int, m: int)
    requires
        1 <= n <= m,
        batch_upto(ranges, table, n) is Err,
    ensures
        batch_upto(ranges, table, m) == batch_upto(ranges, table, n),
    decreases m - n,
{
    if m > n {
        lemma_batch_error_sticks(ranges, table, n, m - 1);
    }
}

} // verus!
