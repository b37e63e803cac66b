//! Drives a multi-jointed robot body toward a sequence of target poses.
//!
//! Canonical joint angles are translated into the physical values each
//! actuator accepts through a per-joint transform table and a calibration
//! profile discovered from the hardware. A scheduler holds the current frame
//! and a FIFO of pending ones, issues one batched write per frame, and
//! advances once every commanded joint has arrived or stalled.
//!
//! All angles are fixed-point integers: thousandths of a degree (and of a
//! degree per second for speeds).

pub mod calibration;
pub mod error;
pub mod frame;
pub mod gateway;
pub mod joint;
pub mod pose;
pub mod runtime;
