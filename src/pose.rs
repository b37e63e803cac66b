use vstd::prelude::*;

use crate::frame::Frame;
use crate::joint::{actuator_with_wire, joint_index, joint_of, lemma_joint_index_bijective, ActuatorId, Joint, JOINT_COUNT};

verus! {

/// A value of a pose document: a canonical angle in thousandths of a degree,
/// or something that is not a number.
#[derive(Debug, Clone, Copy, PartialEq, Eq, Structural)]
pub enum PoseValue {
    Angle(i32),
    NotNumber,
}

/// One entry of a pose document: an object of actuator-id keys and values,
/// or something that is not an object.
#[derive(Debug, Clone, PartialEq, Eq)]
pub enum PoseEntry {
    Object(Vec<(String, PoseValue)>),
    NotObject,
}

/// Why a pose document was rejected.
#[derive(Debug, Clone, Copy, PartialEq, Eq, Structural)]
pub enum PoseError {
    /// An entry is not an object.
    NotAnObject,
    /// A key is not an integer.
    InvalidKey,
    /// A key names no actuator.
    UnknownActuator { id: i32 },
    /// A value is not a number.
    NotNumeric,
}

/// The integer that a key reads as, in JSON.
pub uninterp spec fn json_i32_of(s: Seq<char>) -> Option<i32>;

/// Relies on `serde_json::from_str::<i32>`: the key read as a JSON integer
/// that fits in an `i32`, or `None`.
#[verifier::external_body]
fn parse_key(key: &str) -> (r: Option<i32>)
    ensures
        r == json_i32_of(key@),
{
    serde_json::from_str::<i32>(key).ok()
}

/// The joint that a parsed key designates: the key is an actuator's wire
/// value, and the joint is the one that actuator drives.
pub open spec fn key_joint(parsed: Option<i32>) -> Result<Joint, PoseError> {
    match parsed {
        None => Err(PoseError::InvalidKey),
        Some(v) => match actuator_with_wire(v as int) {
            None => Err(PoseError::UnknownActuator { id: v }),
            Some(a) => Ok(joint_of(a)),
        },
    }
}

/// The frame table that the first `n` key/value pairs of an object describe;
/// the first malformed pair decides the error.
pub open spec fn pose_table_upto(pairs: Seq<(String, PoseValue)>, n: int) -> Result<Seq<Option<i32>>, PoseError>
    decreases n,
{
    if n <= 0 {
        Ok(Seq::new(JOINT_COUNT as nat, |i: int| None::<i32>))
    } else {
        match pose_table_upto(pairs, n - 1) {
            Err(e) => Err(e),
            Ok(t) => match key_joint(json_i32_of(pairs[n - 1].0@)) {
                Err(e) => Err(e),
                Ok(j) => match pairs[n - 1].1 {
                    PoseValue::NotNumber => Err(PoseError::NotNumeric),
                    PoseValue::Angle(v) => Ok(t.update(joint_index(j), Some(v))),
                },
            },
        }
    }
}

/// The frame table that a document entry describes.
pub open spec fn entry_table(entry: PoseEntry) -> Result<Seq<Option<i32>>, PoseError> {
    match entry {
        PoseEntry::NotObject => Err(PoseError::NotAnObject),
        PoseEntry::Object(pairs) => pose_table_upto(pairs@, pairs@.len() as int),
    }
}

/// The frame tables of the first `n` entries of a document; the first
/// malformed entry decides the error.
pub open spec fn document_upto(entries: Seq<PoseEntry>, n: int) -> Result<Seq<Seq<Option<i32>>>, PoseError>
    decreases n,
{
    if n <= 0 {
        Ok(Seq::empty())
    } else {
        match document_upto(entries, n - 1) {
            Err(e) => Err(e),
            Ok(ts) => match entry_table(entries[n - 1]) {
                Err(e) => Err(e),
                Ok(t) => Ok(ts.push(t)),
            },
        }
    }
}

/// The joint that a parsed key designates.
pub fn joint_for_key(parsed: Option<i32>) -> (r: Result<Joint, PoseError>)
    ensures
        r == key_joint(parsed),
{
    match parsed {
        None => Err(PoseError::InvalidKey),
        Some(v) => match ActuatorId::from_wire(v) {
            None => Err(PoseError::UnknownActuator { id: v }),
            Some(a) => Ok(Joint::driven_by(a)),
        },
    }
}

proof fn lemma_pose_error_sticks(pairs: Seq<(String, PoseValue)>, n: int, m: int)
    requires
        1 <= n <= m,
        pose_table_upto(pairs, n) is Err,
    ensures
        pose_table_upto(pairs, m) == pose_table_upto(pairs, n),
    decreases m - n,
{
    if m > n {
        lemma_pose_error_sticks(pairs, n, m - 1);
    }
}

proof fn lemma_document_error_sticks(entries: Seq<PoseEntry>, n: int, m: int)
    requires
        1 <= n <= m,
        document_upto(entries, n) is Err,
    ensures
        document_upto(entries, m) == document_upto(entries, n),
    decreases m - n,
{
    if m > n {
        lemma_document_error_sticks(entries, n, m - 1);
    }
}

/// The frame that one entry of a pose document describes. Each key is an
/// actuator's wire value written as a JSON integer; a later key for the same
/// joint wins. The first malformed key or value rejects the whole entry.
pub fn frame_json_to_frame(entry: &PoseEntry) -> (r: Result<Frame, PoseError>)
    ensures
        match (r, entry_table(*entry)) {
            (Ok(f), Ok(t)) => f@ == t,
            (Err(e), Err(d)) => e == d,
            _ => false,
        },
{
    let pairs = match entry {
        PoseEntry::NotObject => {
            return Err(PoseError::NotAnObject);
        },
        PoseEntry::Object(pairs) => pairs,
    };
    let mut frame = Frame::new();
    let mut k: usize = 0;
    proof {
        lemma_joint_index_bijective();
    }
    while k < pairs.len()
        invariant
            k <= pairs@.len(),
            entry_table(*entry) == pose_table_upto(pairs@, pairs@.len() as int),
            pose_table_upto(pairs@, k as int) == Ok::<Seq<Option<i32>>, PoseError>(frame@),
        decreases pairs@.len() - k,
    {
        let key: &str = pairs[k].0.as_str();
        let parsed = parse_key(key);
        proof {
            assert(key@ == pairs@[k as int].0@);
        }
        let joint = match joint_for_key(parsed) {
            Err(e) => {
                proof {
                    assert(pose_table_upto(pairs@, k as int + 1) == Err::<Seq<Option<i32>>, PoseError>(e));
                    lemma_pose_error_sticks(pairs@, k as int + 1, pairs@.len() as int);
                }
                return Err(e);
            },
            Ok(j) => j,
        };
        match pairs[k].1 {
            PoseValue::NotNumber => {
                proof {
                    assert(pose_table_upto(pairs@, k as int + 1) == Err::<Seq<Option<i32>>, PoseError>(PoseError::NotNumeric));
                    lemma_pose_error_sticks(pairs@, k as int + 1, pairs@.len() as int);
                }
                return Err(PoseError::NotNumeric);
            },
            PoseValue::Angle(v) => {
                frame.set(joint, v);
            },
        }
        k = k + 1;
    }
    Ok(frame)
}

/// The frames of a whole pose document, in order. All or nothing: the first
/// malformed entry rejects the document.
pub fn frames_from_document(entries: &Vec<PoseEntry>) -> (r: Result<Vec<Frame>, PoseError>)
    ensures
        match (r, document_upto(entries@, entries@.len() as int)) {
            (Ok(fs), Ok(ts)) => fs@.len() == ts.len() && forall|i: int| 0 <= i < ts.len() ==> #[trigger] fs@[i]@ == ts[i],
            (Err(e), Err(d)) => e == d,
            _ => false,
        },
{
    let mut frames: Vec<Frame> = Vec::new();
    let mut k: usize = 0;
    while k < entries.len()
        invariant
            k <= entries@.len(),
            document_upto(entries@, k as int) is Ok,
            frames@.len() == document_upto(entries@, k as int)->Ok_0.len(),
            forall|i: int| 0 <= i < frames@.len() ==> #[trigger] frames@[i]@ == document_upto(entries@, k as int)->Ok_0[i],
        decreases entries@.len() - k,
    {
        match frame_json_to_frame(&entries[k]) {
            Err(e) => {
                proof {
                    lemma_document_error_sticks(entries@, k as int + 1, entries@.len() as int);
                }
                return Err(e);
            },
            Ok(f) => {
                frames.push(f);
            },
        }
        k = k + 1;
    }
    Ok(frames)
}

} // verus!
