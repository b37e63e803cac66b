use vstd::prelude::*;

use crate::joint::{joint_at, joint_index, lemma_joint_index_bijective, Joint, JOINT_COUNT};

verus! {

/// One target pose: for each canonical joint, the canonical angle to drive it
/// to, or nothing when the pose leaves that joint alone.
///
/// Angles are fixed-point: thousandths of a degree. The table is indexed by
/// the joint's position in the canonical order, so keys are unique by
/// construction and iteration follows that order.
#[derive(Debug, Clone, Copy)]
pub struct Frame {
    pub joints: [Option<i32>; JOINT_COUNT],
}

/// The table that a sequence of `(joint, angle)` pairs describes; a later
/// pair for the same joint replaces an earlier one.
pub open spec fn table_of_pairs(pairs: Seq<(Joint, i32)>) -> Seq<Option<i32>>
    decreases pairs.len(),
{
    if pairs.len() == 0 {
        Seq::new(JOINT_COUNT as nat, |i: int| None)
    } else {
        let last = pairs.last();
        table_of_pairs(pairs.drop_last()).update(joint_index(last.0), Some(last.1))
    }
}

/// The `(joint, angle)` entries among the first `n` positions of a table, in
/// canonical order.
pub open spec fn entries_upto(table: Seq<Option<i32>>, n: int) -> Seq<(Joint, i32)>
    decreases n,
{
    if n <= 0 {
        Seq::empty()
    } else {
        let rest = entries_upto(table, n - 1);
        match table[n - 1] {
            Some(v) => rest.push((joint_at(n - 1), v)),
            None => rest,
        }
    }
}

impl Frame {
    /// The frame as a table indexed by canonical joint position.
    pub open spec fn view(&self) -> Seq<Option<i32>> {
        self.joints@
    }

    /// The target of `j` in this frame.
    pub open spec fn target(&self, j: Joint) -> Option<i32> {
        self.joints@[joint_index(j)]
    }

    /// The entries of this frame in canonical order.
    pub open spec fn entries(&self) -> Seq<(Joint, i32)> {
        entries_upto(self.joints@, JOINT_COUNT as int)
    }

    /// A frame with no targets.
    pub fn new() -> (r: Frame)
        ensures
            r@ == Seq::new(JOINT_COUNT as nat, |i: int| None::<i32>),
            forall|j: Joint| #[trigger] r.target(j) is None,
            r.entries().len() == 0,
    {
        let r = Frame { joints: [None; JOINT_COUNT] };
        proof {
            assert(r@ =~= Seq::new(JOINT_COUNT as nat, |i: int| None::<i32>));
            lemma_joint_index_bijective();
            assert forall|j: Joint| #[trigger] r.target(j) is None by {
                assert(0 <= joint_index(j) < JOINT_COUNT);
            }
            lemma_entries_of_empty(r.joints@, JOINT_COUNT as int);
        }
        r
    }

    /// A frame built from `(joint, angle)` pairs; where a joint occurs more
    /// than once, the last pair wins.
    pub fn from_pairs(pairs: &Vec<(Joint, i32)>) -> (r: Frame)
        ensures
            r@ == table_of_pairs(pairs@),
    {
        let mut r = Frame::new();
        let mut k: usize = 0;
        proof {
            lemma_joint_index_bijective();
            assert(r@ =~= table_of_pairs(pairs@.take(0)));
        }
        while k < pairs.len()
            invariant
                k <= pairs@.len(),
                r@ == table_of_pairs(pairs@.take(k as int)),
            decreases pairs@.len() - k,
        {
            let (j, v) = pairs[k];
            r.set(j, v);
            proof {
                assert(pairs@.take(k as int + 1).drop_last() =~= pairs@.take(k as int));
            }
            k = k + 1;
        }
        proof {
            assert(pairs@.take(k as int) =~= pairs@);
        }
        r
    }

    /// The target of `joint` in this frame.
    pub fn get(&self, joint: Joint) -> (r: Option<i32>)
        ensures
            r == self.target(joint),
    {
        self.joints[joint.index()]
    }

    /// Sets the target of `joint`, replacing any earlier one.
    pub fn set(&mut self, joint: Joint, value: i32)
        ensures
            final(self)@ == old(self)@.update(joint_index(joint), Some(value)),
    {
        let i = joint.index();
        self.joints[i] = Some(value);
    }

    /// The `(joint, angle)` entries of this frame, in canonical order.
    pub fn pairs(&self) -> (r: Vec<(Joint, i32)>)
        ensures
            r@ == self.entries(),
    {
        let mut r: Vec<(Joint, i32)> = Vec::new();
        let mut i: usize = 0;
        while i < JOINT_COUNT
            invariant
                i <= JOINT_COUNT,
                r@ == entries_upto(self.joints@, i as int),
            decreases JOINT_COUNT - i,
        {
            match self.joints[i] {
                Some(v) => {
                    r.push((Joint::from_index(i), v));
                },
                None => {},
            }
            i = i + 1;
        }
        r
    }
}

impl PartialEq for Frame {
    /// Frames are equal when they hold the same target for every joint.
    fn eq(&self, other: &Frame) -> (r: bool) {
        let mut i: usize = 0;
        while i < JOINT_COUNT
            invariant
                i <= JOINT_COUNT,
                forall|k: int| 0 <= k < i ==> self.joints@[k] == other.joints@[k],
            decreases JOINT_COUNT - i,
        {
            let same = match (self.joints[i], other.joints[i]) {
                (Some(a), Some(b)) => a == b,
                (None, None) => true,
                _ => false,
            };
            if !same {
                return false;
            }
            i = i + 1;
        }
        proof {
            assert(self.joints@ =~= other.joints@);
        }
        true
    }
}

impl vstd::std_specs::cmp::PartialEqSpecImpl for Frame {
    open spec fn obeys_eq_spec() -> bool {
        true
    }

    open spec fn eq_spec(&self, other: &Frame) -> bool {
        self.joints@ == other.joints@
    }
}

impl Eq for Frame {

}

proof fn lemma_entries_of_empty(table: Seq<Option<i32>>, n: int)
    requires
        n <= table.len(),
        forall|i: int| 0 <= i < table.len() ==> #[trigger] table[i] is None,
    ensures
        entries_upto(table, n).len() == 0,
    decreases n,
{
    if n > 0 {
        lemma_entries_of_empty(table, n - 1);
    }
}

} // verus!
