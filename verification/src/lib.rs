//! Core of a depth-camera streaming stack: a depth <-> false-color pixel
//! codec and a single-slot, latest-wins frame handoff buffer, together with
//! small data models of the capture sources that feed them.

pub mod dcolorizer;
pub mod frame;
pub mod k4a;
pub mod libuvc_theta;
pub mod theta;
