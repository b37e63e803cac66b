use vstd::prelude::*;

use crate::calibration::{batch_for, translation, ActuatorCommand, ActuatorRange, CalibrationProfile};
use crate::error::Error;
use crate::frame::Frame;
use crate::joint::{actuator_index, ActuatorId, Joint, ACTUATOR_COUNT};

verus! {

/// The current frame slot and the FIFO of frames waiting behind it.
pub struct FrameQueue {
    pub current: Option<Frame>,
    pub queue: Vec<Frame>,
}

impl FrameQueue {
    /// An idle queue: no current frame and nothing pending.
    pub fn new() -> (r: FrameQueue)
        ensures
            r.current is None,
            r.queue@.len() == 0,
    {
        FrameQueue { current: None, queue: Vec::new() }
    }

    /// Appends `frame` at the tail; the current frame is left alone.
    pub fn push(&mut self, frame: Frame)
        ensures
            final(self).current == old(self).current,
            final(self).queue@ == old(self).queue@.push(frame),
    {
        self.queue.push(frame);
    }

    /// Makes `frame` current and discards every pending frame.
    pub fn overwrite(&mut self, frame: Frame)
        ensures
            final(self).current == Some(frame),
            final(self).queue@.len() == 0,
    {
        self.queue = Vec::new();
        self.current = Some(frame);
    }

    /// Moves the head of the FIFO into the current slot, dropping the frame
    /// that was current; with an empty FIFO the slot becomes empty. Returns
    /// whether a frame became current.
    pub fn advance(&mut self) -> (r: bool)
        ensures
            r == (old(self).queue@.len() > 0),
            r ==> final(self).current == Some(old(self).queue@[0]),
            r ==> final(self).queue@ == old(self).queue@.drop_first(),
            !r ==> final(self).current is None && final(self).queue@.len() == 0,
    {
        if self.queue.len() > 0 {
            let head = self.queue.remove(0);
            self.current = Some(head);
            true
        } else {
            self.current = None;
            false
        }
    }
}

/// How close a joint must come to count as arrived.
#[derive(Debug, Clone, Copy, PartialEq, Eq, Structural)]
pub struct Tolerance {
    /// Largest distance from target, in thousandths of a degree.
    pub distance: i64,
    /// Largest speed at which a joint counts as stalled.
    pub speed: i64,
}

impl Tolerance {
    /// Ten degrees of distance, ten degrees per second of speed.
    pub fn standard() -> (r: Tolerance)
        ensures
            r.distance == 10_000 && r.speed == 10_000,
    {
        Tolerance { distance: 10_000, speed: 10_000 }
    }
}

/// One poll of one commanded joint: where it was sent, where it is, and how
/// fast it is moving.
#[derive(Debug, Clone, Copy, PartialEq, Eq, Structural)]
pub struct Sample {
    pub target: i64,
    pub position: i64,
    pub speed: i64,
}

/// What `step` asks the caller to do next.
#[derive(Debug, Clone, PartialEq, Eq)]
pub enum StepAction {
    /// Nothing is current and nothing is queued.
    Idle,
    /// Issue this batched write, then poll until `observe` reports an end.
    Drive(Vec<ActuatorCommand>),
}

/// What a poll of the commanded joints concluded.
#[derive(Debug, Clone, Copy, PartialEq, Eq, Structural)]
pub enum PollOutcome {
    /// Some joint is still on its way: poll again.
    Pending,
    /// Every joint arrived; the scheduler advanced. `advanced` tells whether
    /// a queued frame became current.
    Converged { advanced: bool },
    /// The frame that was commanded is no longer current: stop polling.
    Superseded,
}

/// The absolute value of `x`.
pub open spec fn abs(x: int) -> int {
    if x < 0 {
        -x
    } else {
        x
    }
}

/// A joint has arrived when it is within distance of its target, or when it
/// has stopped moving (a blocked joint counts as arrived).
pub open spec fn arrived(s: Sample, tol: Tolerance) -> bool {
    abs(s.position - s.target) <= tol.distance || abs(s.speed as int) <= tol.speed
}

/// A frame has converged when every commanded joint has arrived.
pub open spec fn converged(samples: Seq<Sample>, tol: Tolerance) -> bool {
    forall|i: int| 0 <= i < samples.len() ==> #[trigger] arrived(samples[i], tol)
}

/// Whether one sample counts as arrived.
pub fn sample_arrived(s: Sample, tol: Tolerance) -> (r: bool)
    ensures
        r == arrived(s, tol),
{
    let d: i128 = s.position as i128 - s.target as i128;
    let d_abs: i128 = if d < 0 {
        -d
    } else {
        d
    };
    let v: i128 = if s.speed < 0 {
        -(s.speed as i128)
    } else {
        s.speed as i128
    };
    d_abs <= tol.distance as i128 || v <= tol.speed as i128
}

/// Whether every sample counts as arrived.
pub fn all_arrived(samples: &Vec<Sample>, tol: Tolerance) -> (r: bool)
    ensures
        r == converged(samples@, tol),
{
    let mut i: usize = 0;
    while i < samples.len()
        invariant
            i <= samples@.len(),
            forall|k: int| 0 <= k < i ==> #[trigger] arrived(samples@[k], tol),
        decreases samples@.len() - i,
    {
        if !sample_arrived(samples[i], tol) {
            return false;
        }
        i = i + 1;
    }
    true
}

/// The slots after `push_frame(f)`.
pub open spec fn pushed(slots: (Option<Frame>, Seq<Frame>), f: Frame) -> (Option<Frame>, Seq<Frame>) {
    (slots.0, slots.1.push(f))
}

/// The slots after `overwrite(f)`.
pub open spec fn overwritten(slots: (Option<Frame>, Seq<Frame>), f: Frame) -> (Option<Frame>, Seq<Frame>) {
    (Some(f), Seq::empty())
}

/// The slots after `advance()`.
pub open spec fn advanced(slots: (Option<Frame>, Seq<Frame>)) -> (Option<Frame>, Seq<Frame>) {
    if slots.1.len() > 0 {
        (Some(slots.1[0]), slots.1.drop_first())
    } else {
        (None, Seq::empty())
    }
}

/// The ranges that a sequence of limit readings describes, or `None` when
/// one of them found no actuator.
pub open spec fn ranges_from(readings: Seq<(ActuatorId, Option<ActuatorRange>)>) -> Option<Seq<Option<ActuatorRange>>>
    decreases readings.len(),
{
    if readings.len() == 0 {
        Some(Seq::new(ACTUATOR_COUNT as nat, |i: int| None::<ActuatorRange>))
    } else {
        match ranges_from(readings.drop_last()) {
            None => None,
            Some(t) => match readings.last().1 {
                None => None,
                Some(r) => Some(t.update(actuator_index(readings.last().0), Some(r))),
            },
        }
    }
}

/// Every actuator has a range.
pub open spec fn complete(ranges: Seq<Option<ActuatorRange>>) -> bool {
    forall|i: int| 0 <= i < ACTUATOR_COUNT ==> #[trigger] ranges[i] is Some
}

/// The scheduler: a current frame, a FIFO of pending frames, the calibration
/// snapshot used to translate them, and whether the current frame has been
/// commanded and is being polled.
pub struct Runtime {
    frames: FrameQueue,
    profile: CalibrationProfile,
    tolerance: Tolerance,
    commanded: bool,
}

impl Runtime {
    /// The frame in the current slot, if any.
    pub closed spec fn current(&self) -> Option<Frame> {
        self.frames.current
    }

    /// The pending frames, head first.
    pub closed spec fn pending(&self) -> Seq<Frame> {
        self.frames.queue@
    }

    /// The calibration ranges in use, indexed by actuator position.
    pub closed spec fn ranges(&self) -> Seq<Option<ActuatorRange>> {
        self.profile@
    }

    /// The arrival tolerance.
    pub closed spec fn tolerance_spec(&self) -> Tolerance {
        self.tolerance
    }

    /// The current slot and the pending FIFO together.
    pub open spec fn slots(&self) -> (Option<Frame>, Seq<Frame>) {
        (self.current(), self.pending())
    }

    /// Whether the current frame has been commanded and awaits convergence.
    pub closed spec fn driving(&self) -> bool {
        self.commanded
    }

    /// The frame that the next `step` drives: the current one, or else the
    /// head of the FIFO.
    pub open spec fn next_frame(&self) -> Option<Frame> {
        if self.current() is Some {
            self.current()
        } else if self.pending().len() > 0 {
            Some(self.pending()[0])
        } else {
            None
        }
    }

    /// An idle, uncalibrated runtime.
    pub fn new(tolerance: Tolerance) -> (r: Runtime)
        ensures
            r.current() is None,
            r.pending().len() == 0,
            r.ranges() == Seq::new(ACTUATOR_COUNT as nat, |i: int| None::<ActuatorRange>),
            r.tolerance_spec() == tolerance,
            !r.driving(),
    {
        Runtime {
            frames: FrameQueue::new(),
            profile: CalibrationProfile::empty(),
            tolerance,
            commanded: false,
        }
    }

    /// The current frame and the pending FIFO.
    pub fn queue(&self) -> (r: &FrameQueue)
        ensures
            r.current == self.current(),
            r.queue@ == self.pending(),
    {
        &self.frames
    }

    /// Number of pending frames.
    pub fn queue_len(&self) -> (r: usize)
        ensures
            r == self.pending().len(),
    {
        self.frames.queue.len()
    }

    /// The calibration snapshot in use.
    pub fn profile(&self) -> (r: &CalibrationProfile)
        ensures
            r@ == self.ranges(),
    {
        &self.profile
    }

    /// Appends `frame` to the FIFO; a frame being driven is not disturbed.
    pub fn push_frame(&mut self, frame: Frame)
        ensures
            final(self).slots() == pushed(old(self).slots(), frame),
            final(self).driving() == old(self).driving(),
            final(self).ranges() == old(self).ranges(),
            final(self).tolerance_spec() == old(self).tolerance_spec(),
    {
        self.frames.push(frame);
    }

    /// Replaces the current frame by `frame` and cancels every pending one.
    pub fn overwrite(&mut self, frame: Frame)
        ensures
            final(self).slots() == overwritten(old(self).slots(), frame),
            !final(self).driving(),
            final(self).ranges() == old(self).ranges(),
            final(self).tolerance_spec() == old(self).tolerance_spec(),
    {
        self.frames.overwrite(frame);
        self.commanded = false;
        proof {
            assert(self.frames.queue@ =~= Seq::<Frame>::empty());
        }
    }

    /// Pops the head of the FIFO into the current slot (the slot empties when
    /// the FIFO is empty). Returns whether a frame became current.
    pub fn advance(&mut self) -> (r: bool)
        ensures
            r == (old(self).pending().len() > 0),
            final(self).slots() == advanced(old(self).slots()),
            !final(self).driving(),
            final(self).ranges() == old(self).ranges(),
            final(self).tolerance_spec() == old(self).tolerance_spec(),
    {
        self.commanded = false;
        let r = self.frames.advance();
        proof {
            if !r {
                assert(self.frames.queue@ =~= Seq::<Frame>::empty());
            }
        }
        r
    }

    /// Whether `frame` is the current frame.
    pub fn is_complete(&self, frame: &Frame) -> (r: bool)
        ensures
            r == (self.current() is Some && self.current()->0@ == frame@),
    {
        match &self.frames.current {
            Some(current) => *current == *frame,
            None => false,
        }
    }

    /// Translates one canonical angle with the calibration in use.
    pub fn translate(&self, joint: Joint, value: i32) -> (r: Result<i64, Error>)
        ensures
            match (r, translation(self.ranges(), joint, value as int)) {
                (Ok(p), Ok(q)) => p as int == q,
                (Err(e), Err(f)) => e == f,
                _ => false,
            },
    {
        self.profile.translate(joint, value)
    }

    /// Installs the calibration that the limit readings describe, all or
    /// nothing: it succeeds only when no reading found a missing actuator and
    /// every actuator got a range. On failure nothing changes.
    pub fn install_calibration(&mut self, readings: &Vec<(ActuatorId, Option<ActuatorRange>)>) -> (r: Result<(), Error>)
        ensures
            r is Ok <==> (ranges_from(readings@) is Some && complete(ranges_from(readings@)->0)),
            r is Ok ==> final(self).ranges() == ranges_from(readings@)->0,
            r is Err ==> r == Err::<(), Error>(Error::ServoNotFound) && *final(self) == *old(self),
            final(self).current() == old(self).current(),
            final(self).pending() == old(self).pending(),
            final(self).driving() == old(self).driving(),
            final(self).tolerance_spec() == old(self).tolerance_spec(),
    {
        let mut staged = CalibrationProfile::empty();
        let mut k: usize = 0;
        proof {
            assert(readings@.take(0) =~= Seq::<(ActuatorId, Option<ActuatorRange>)>::empty());
        }
        while k < readings.len()
            invariant
                k <= readings@.len(),
                ranges_from(readings@.take(k as int)) == Some(staged@),
            decreases readings@.len() - k,
        {
            let (a, reading) = readings[k];
            proof {
                assert(readings@.take(k as int + 1).drop_last() =~= readings@.take(k as int));
            }
            match reading {
                None => {
                    proof {
                        lemma_not_found_sticks(readings@, k as int + 1);
                        assert(readings@.take(readings@.len() as int) =~= readings@);
                    }
                    return Err(Error::ServoNotFound);
                },
                Some(range) => {
                    staged.ranges[a.index()] = Some(range);
                },
            }
            k = k + 1;
        }
        proof {
            assert(readings@.take(k as int) =~= readings@);
        }
        let mut i: usize = 0;
        while i < ACTUATOR_COUNT
            invariant
                i <= ACTUATOR_COUNT,
                staged@.len() == ACTUATOR_COUNT,
                ranges_from(readings@) == Some(staged@),
                forall|m: int| 0 <= m < i ==> #[trigger] staged@[m] is Some,
            decreases ACTUATOR_COUNT - i,
        {
            if staged.ranges[i].is_none() {
                proof {
                    assert(!(staged@[i as int] is Some));
                }
                return Err(Error::ServoNotFound);
            }
            i = i + 1;
        }
        self.profile = staged;
        Ok(())
    }

    /// Starts one step. When nothing is current, the head of the FIFO becomes
    /// current first. Returns `Idle` when there is nothing to drive; otherwise
    /// translates the whole frame into one batched write and marks it
    /// commanded. If the frame cannot be translated, the error is returned and
    /// nothing changes, so the step may be retried.
    pub fn step(&mut self) -> (r: Result<StepAction, Error>)
        ensures
            old(self).next_frame() is None ==> r == Ok::<StepAction, Error>(StepAction::Idle) && *final(self) == *old(self),
            old(self).next_frame() is Some ==> match batch_for(old(self).ranges(), old(self).next_frame()->0) {
                Err(e) => r == Err::<StepAction, Error>(e) && *final(self) == *old(self),
                Ok(s) => match r {
                    Ok(StepAction::Drive(cmds)) => {
                        &&& cmds@ == s
                        &&& final(self).current() == old(self).next_frame()
                        &&& final(self).pending() == if old(self).current() is Some {
                            old(self).pending()
                        } else {
                            old(self).pending().drop_first()
                        }
                        &&& final(self).driving()
                        &&& final(self).ranges() == old(self).ranges()
                        &&& final(self).tolerance_spec() == old(self).tolerance_spec()
                    },
                    _ => false,
                },
            },
    {
        let next = match &self.frames.current {
            Some(f) => *f,
            None => {
                if self.frames.queue.len() == 0 {
                    return Ok(StepAction::Idle);
                }
                self.frames.queue[0]
            },
        };
        match self.profile.translate_frame(&next) {
            Err(e) => Err(e),
            Ok(cmds) => {
                if self.frames.current.is_none() {
                    let head = self.frames.queue.remove(0);
                    self.frames.current = Some(head);
                }
                self.commanded = true;
                Ok(StepAction::Drive(cmds))
            },
        }
    }

    /// Hands the runtime one poll of the commanded joints. If the commanded
    /// frame was replaced meanwhile, reports `Superseded` and changes nothing.
    /// If every joint has arrived, advances and reports `Converged`;
    /// otherwise reports `Pending` and changes nothing.
    pub fn observe(&mut self, samples: &Vec<Sample>) -> (r: PollOutcome)
        ensures
            !old(self).driving() ==> r == PollOutcome::Superseded && *final(self) == *old(self),
            old(self).driving() && !converged(samples@, old(self).tolerance_spec()) ==> r == PollOutcome::Pending && *final(self) == *old(self),
            old(self).driving() && converged(samples@, old(self).tolerance_spec()) ==> {
                &&& r == PollOutcome::Converged { advanced: old(self).pending().len() > 0 }
                &&& final(self).slots() == advanced(old(self).slots())
                &&& !final(self).driving()
                &&& final(self).ranges() == old(self).ranges()
                &&& final(self).tolerance_spec() == old(self).tolerance_spec()
            },
    {
        if !self.commanded {
            return PollOutcome::Superseded;
        }
        if !all_arrived(samples, self.tolerance) {
            return PollOutcome::Pending;
        }
        let advanced = self.advance();
        PollOutcome::Converged { advanced }
    }
}

/// Frames pushed one after another become current in push order: from an
/// empty FIFO, pushing `f1` then `f2` and advancing twice makes `f1` current
/// and then `f2`.
pub proof fn lemma_push_order(slots: (Option<Frame>, Seq<Frame>), f1: Frame, f2: Frame)
    requires
        slots.1.len() == 0,
    ensures
        advanced(pushed(pushed(slots, f1), f2)).0 == Some(f1),
        advanced(advanced(pushed(pushed(slots, f1), f2))).0 == Some(f2),
        advanced(advanced(pushed(pushed(slots, f1), f2))).1.len() == 0,
{
    let s2 = pushed(pushed(slots, f1), f2);
    assert(s2.1 =~= seq![f1, f2]);
    assert(advanced(s2).1 =~= seq![f2]);
}

/// `overwrite` cancels everything: whatever was current and queued, the new
/// frame is current and the FIFO is empty.
pub proof fn lemma_overwrite_cancels(slots: (Option<Frame>, Seq<Frame>), f: Frame)
    ensures
        overwritten(slots, f).0 == Some(f),
        overwritten(slots, f).1.len() == 0,
        advanced(overwritten(slots, f)) == (None::<Frame>, Seq::<Frame>::empty()),
{
}

/// A joint that has stopped moving counts as arrived however far it is from
/// its target.
pub proof fn lemma_stalled_joint_arrives(s: Sample, tol: Tolerance)
    requires
        s.speed == 0,
        tol.speed >= 0,
    ensures
        arrived(s, tol),
{
}

proof fn lemma_not_found_sticks(readings: Seq<(ActuatorId, Option<ActuatorRange>)>, n: int)
    requires
        1 <= n <= readings.len(),
        ranges_from(readings.take(n)) is None,
    ensures
        ranges_from(readings) is None,
    decreases readings.len() - n,
{
    if n < readings.len() {
        assert(readings.take(n + 1).drop_last() =~= readings.take(n));
        lemma_not_found_sticks(readings, n + 1);
    } else {
        assert(readings.take(n) =~= readings);
    }
}

} // verus!
