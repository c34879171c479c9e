//! Data model of a UVC video frame source: each delivered frame and the
//! stream handle are reduced to the plain values the pipeline reads. The
//! layer that talks to the actual camera converts into these types when
//! its callback fires.

use vstd::prelude::*;

verus! {

/// One frame as delivered by the camera callback: payload bytes, image
/// geometry, the per-frame sequence number, and the capture-finish
/// timestamp.
pub struct UvcFrame {
    pub data: Vec<u8>,
    pub width: usize,
    pub height: usize,
    pub step: usize,
    pub sequence: usize,
    pub finish_timestamp_nanos: u64,
}

impl UvcFrame {
    pub fn new(
        data: Vec<u8>,
        width: usize,
        height: usize,
        step: usize,
        sequence: usize,
        finish_timestamp_nanos: u64,
    ) -> (r: UvcFrame)
        ensures
            r.data == data,
            r.width == width,
            r.height == height,
            r.step == step,
            r.sequence == sequence,
            r.finish_timestamp_nanos == finish_timestamp_nanos,
    {
        UvcFrame { data, width, height, step, sequence, finish_timestamp_nanos }
    }

    /// The raw frame bytes.
    pub fn data(&self) -> (r: &Vec<u8>)
        ensures
            r == &self.data,
    {
        &self.data
    }

    pub fn width(&self) -> (r: usize)
        ensures
            r == self.width,
    {
        self.width
    }

    pub fn height(&self) -> (r: usize)
        ensures
            r == self.height,
    {
        self.height
    }

    /// Bytes per image row.
    pub fn step(&self) -> (r: usize)
        ensures
            r == self.step,
    {
        self.step
    }

    /// The camera's running frame number.
    pub fn sequence(&self) -> (r: usize)
        ensures
            r == self.sequence,
    {
        self.sequence
    }

    /// When the camera finished capturing this frame, in nanoseconds.
    pub fn finish_timestamp(&self) -> (r: u64)
        ensures
            r == self.finish_timestamp_nanos,
    {
        self.finish_timestamp_nanos
    }
}

/// A running stream, reduced to the negotiated frame interval, which the
/// camera reports in 100-nanosecond units.
pub struct UvcStreamHandle {
    pub frame_interval_units: u32,
}

impl UvcStreamHandle {
    pub fn new(frame_interval_units: u32) -> (r: UvcStreamHandle)
        ensures
            r.frame_interval_units == frame_interval_units,
    {
        UvcStreamHandle { frame_interval_units }
    }

    /// The negotiated time between frames, in nanoseconds.
    pub fn frame_interval(&self) -> (r: u64)
        ensures
            r == self.frame_interval_units * 100,
    {
        (self.frame_interval_units as u64) * 100
    }
}

} // verus!
