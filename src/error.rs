use vstd::prelude::*;

use crate::joint::Joint;

verus! {

/// What can go wrong between the library and the actuator gateway.
#[derive(Debug, Clone, PartialEq, Eq)]
pub enum Error {
    /// The gateway could not be reached.
    Connection { message: String },
    /// The gateway rejected a call.
    Request { message: String },
    /// An actuator is missing, or was never calibrated.
    ServoNotFound,
    /// The joint has no physical actuator.
    UnsupportedJoint { joint: Joint },
}

/// The error for an actuator that the gateway does not know.
pub fn no_such_servo() -> (r: Error)
    ensures
        r == Error::ServoNotFound,
{
    Error::ServoNotFound
}

} // verus!
