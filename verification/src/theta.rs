//! The 360-degree camera source: stream presets, device selection values,
//! and the frame-ingest step that runs on every camera callback.

use vstd::prelude::*;

use crate::frame::FrameData;
use crate::frame::FrameMeta;
use crate::frame::spec_add_frame;
use crate::frame::spec_start_timestamp;
use crate::frame::spec_update_latency;

verus! {

/// USB vendor id of the camera maker.
pub const USBVID_RICOH: u16 = 0x05ca;

/// USB product id of the V model's video interface.
pub const USBPID_THETAV_UVC: u16 = 0x2712;

/// USB product id of the Z1 model's video interface.
pub const USBPID_THETAZ1_UVC: u16 = 0x2715;

/// Stream preset: a known resolution/rate pair, or free-form values.
#[derive(Clone, Copy, Debug, PartialEq, Eq, Structural)]
pub enum Mode {
    Uhd,
    Fhd,
    NoMode,
}

/// The resolution and rate a preset stands for.
pub struct ModeSettings {
    pub width: u32,
    pub height: u32,
    pub fps: u32,
}

impl Mode {
    /// The values a preset pins down; the free-form mode pins none.
    pub fn get_mode_settings(&self) -> (r: Option<ModeSettings>)
        ensures
            match self {
                Mode::Uhd => r matches Some(s) && s.width == 3840 && s.height == 1920 && s.fps
                    == 29,
                Mode::Fhd => r matches Some(s) && s.width == 1920 && s.height == 960 && s.fps
                    == 29,
                Mode::NoMode => r is None,
            },
    {
        match self {
            Mode::Uhd => Some(ModeSettings { width: 3840, height: 1920, fps: 29 }),
            Mode::Fhd => Some(ModeSettings { width: 1920, height: 960, fps: 29 }),
            Mode::NoMode => None,
        }
    }
}

/// Which camera product to select, or any.
#[derive(Clone, Copy, Debug, PartialEq, Eq, Structural)]
pub enum Product {
    Z1,
    V,
    AnyProduct,
}

/// The USB product id to filter devices by, or `None` to accept any.
pub fn product_pid(product: Product) -> (r: Option<u16>)
    ensures
        match product {
            Product::Z1 => r == Some(USBPID_THETAZ1_UVC),
            Product::V => r == Some(USBPID_THETAV_UVC),
            Product::AnyProduct => r is None,
        },
{
    match product {
        Product::Z1 => Some(USBPID_THETAZ1_UVC),
        Product::V => Some(USBPID_THETAV_UVC),
        Product::AnyProduct => None,
    }
}

/// The source configuration: stream geometry and rate, the preset they
/// came from, and how to pick the device.
pub struct Settings {
    pub width: u32,
    pub height: u32,
    pub fps: u32,
    pub mode: Mode,
    pub product: Product,
    pub serial_number: String,
    pub device_index: u32,
}

impl Default for Settings {
    /// The defaults: the full-HD preset, its geometry and rate filled in,
    /// any product, first device.
    fn default() -> (r: Self)
        ensures
            r.mode == Mode::Fhd,
            r.width == 1920,
            r.height == 960,
            r.fps == 29,
            r.product == Product::AnyProduct,
            r.serial_number@ == Seq::<char>::empty(),
            r.device_index == 0,
    {
        let mode = Mode::Fhd;
        let mut width: u32 = 0;
        let mut height: u32 = 0;
        let mut fps: u32 = 0;
        if let Some(preset) = mode.get_mode_settings() {
            width = preset.width;
            height = preset.height;
            fps = preset.fps;
        }
        Settings {
            width,
            height,
            fps,
            device_index: 0,
            mode,
            product: Product::AnyProduct,
            serial_number: String::new(),
        }
    }
}

/// What one camera callback does to the stream state: the frame's finish
/// timestamp establishes the epoch if none is set, the frame enters the
/// handoff buffer (replacing any unread one), the frame interval is
/// recorded as the latency sample, and the presentation metadata is
/// computed — timestamp relative to the epoch (clamped at zero), nominal
/// duration and latency span both from the negotiated frame interval, and
/// the camera's sequence number as offset.
pub fn on_frame_callback<T>(
    fd: &mut FrameData<T>,
    frame: T,
    finish_timestamp_nanos: u64,
    sequence: usize,
    frame_interval_nanos: u64,
) -> (meta: FrameMeta)
    ensures
        ({
            let (s1, epoch) = spec_start_timestamp(*old(fd), finish_timestamp_nanos);
            &&& *final(fd) == spec_update_latency(spec_add_frame(s1, frame), frame_interval_nanos)
            &&& meta.pts_nanos == if finish_timestamp_nanos >= epoch {
                finish_timestamp_nanos - epoch
            } else {
                0
            }
            &&& meta.duration_nanos == frame_interval_nanos
            &&& meta.offset == sequence
        }),
{
    let epoch = fd.start_timestamp(finish_timestamp_nanos);
    let pts = if finish_timestamp_nanos >= epoch {
        finish_timestamp_nanos - epoch
    } else {
        0
    };
    fd.add_frame(frame);
    fd.update_latency(frame_interval_nanos);
    FrameMeta {
        pts_nanos: pts,
        duration_nanos: frame_interval_nanos,
        offset: sequence as u64,
    }
}

} // verus!
