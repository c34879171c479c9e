//! Data model of the depth-camera capture source: the capture stream as
//! the library sees it, with the device handle reduced to the queue of
//! captures it will deliver and each image reduced to the plain values the
//! pipeline reads (kind, payload bytes, system timestamp). The layer that
//! talks to the actual device converts in and out of these types.

use vstd::prelude::*;

use crate::frame::FrameData;
use crate::frame::FrameMeta;
use crate::frame::spec_add_frame;
use crate::frame::spec_start_timestamp;

verus! {

/// Which of the sensor's three image streams a frame belongs to.
#[derive(Clone, Copy, Debug, PartialEq, Eq, Structural)]
pub enum ImageType {
    Color,
    Infrared,
    Depth,
}

/// Why fetching a capture failed: the device had nothing to deliver.
#[derive(Clone, Copy, Debug, PartialEq, Eq, Structural)]
pub enum WaitError {
    Timeout,
}

/// One image of a capture: its kind, its raw bytes, and the system
/// timestamp the device stamped it with.
pub struct Image {
    pub image_type: ImageType,
    pub data: Vec<u8>,
    pub system_timestamp_nanos: u64,
}

impl Image {
    pub fn new(image_type: ImageType, data: Vec<u8>, system_timestamp_nanos: u64) -> (r: Image)
        ensures
            r.image_type == image_type,
            r.data == data,
            r.system_timestamp_nanos == system_timestamp_nanos,
    {
        Image { image_type, data, system_timestamp_nanos }
    }

    /// The kind of image this is.
    pub fn image_type(&self) -> (r: ImageType)
        ensures
            r == self.image_type,
    {
        self.image_type
    }

    /// The raw pixel bytes.
    pub fn buffer(&self) -> (r: &Vec<u8>)
        ensures
            r == &self.data,
    {
        &self.data
    }

    /// When the device captured this image, in nanoseconds.
    pub fn get_system_timestamp(&self) -> (r: u64)
        ensures
            r == self.system_timestamp_nanos,
    {
        self.system_timestamp_nanos
    }
}

/// One capture: up to one image per stream, each stored under its own
/// kind.
pub struct Capture {
    pub color: Option<Image>,
    pub infrared: Option<Image>,
    pub depth: Option<Image>,
}

impl Capture {
    /// Each held image carries the kind of the slot it sits in.
    pub open spec fn wf(&self) -> bool {
        &&& (self.color matches Some(img) ==> img.image_type == ImageType::Color)
        &&& (self.infrared matches Some(img) ==> img.image_type == ImageType::Infrared)
        &&& (self.depth matches Some(img) ==> img.image_type == ImageType::Depth)
    }

    pub fn new(color: Option<Image>, infrared: Option<Image>, depth: Option<Image>) -> (r: Capture)
        requires
            (color matches Some(img) ==> img.image_type == ImageType::Color),
            (infrared matches Some(img) ==> img.image_type == ImageType::Infrared),
            (depth matches Some(img) ==> img.image_type == ImageType::Depth),
        ensures
            r.color == color,
            r.infrared == infrared,
            r.depth == depth,
            r.wf(),
    {
        Capture { color, infrared, depth }
    }

    /// The image of the requested kind, if this capture holds one.
    pub fn get_image(&self, image_type: ImageType) -> (r: Option<&Image>)
        ensures
            ({
                let slot = match image_type {
                    ImageType::Color => self.color,
                    ImageType::Infrared => self.infrared,
                    ImageType::Depth => self.depth,
                };
                match (r, slot) {
                    (Some(got), Some(held)) => *got == held,
                    (None, None) => true,
                    _ => false,
                }
            }),
    {
        match image_type {
            ImageType::Color => self.color.as_ref(),
            ImageType::Infrared => self.infrared.as_ref(),
            ImageType::Depth => self.depth.as_ref(),
        }
    }
}

/// The opened device, reduced to the captures it stands ready to deliver,
/// oldest first. The layer that talks to the hardware refills it.
pub struct Device {
    pub pending: Vec<Capture>,
}

impl Device {
    pub fn new(pending: Vec<Capture>) -> (r: Device)
        ensures
            r.pending == pending,
    {
        Device { pending }
    }
}

/// A device with its cameras started: captures can be fetched until the
/// stream is stopped, which hands the device back.
pub struct Stream {
    pub device: Device,
}

impl Stream {
    pub fn new(device: Device) -> (r: Stream)
        ensures
            r.device == device,
    {
        Stream { device }
    }

    /// The next capture the device delivers, oldest first; an empty
    /// device reports a wait failure instead of a capture.
    pub fn get_capture(&mut self) -> (r: Result<Capture, WaitError>)
        ensures
            match r {
                Ok(c) => old(self).device.pending@.len() > 0 && c == old(
                    self,
                ).device.pending@[0] && final(self).device.pending@ == old(
                    self,
                ).device.pending@.remove(0),
                Err(e) => old(self).device.pending@.len() == 0 && *final(self) == *old(self) && e
                    == WaitError::Timeout,
            },
    {
        if self.device.pending.len() == 0 {
            Err(WaitError::Timeout)
        } else {
            Ok(self.device.pending.remove(0))
        }
    }

    /// Stops the cameras and hands the device back for a later restart.
    pub fn stop_cameras(self) -> (r: Device)
        ensures
            r == self.device,
    {
        self.device
    }
}

/// The capture rates the sensor offers.
#[derive(Clone, Copy, Debug, PartialEq, Eq, Structural)]
pub enum FpsMode {
    Fps5,
    Fps15,
    Fps30,
}

impl FpsMode {
    /// The rate as frames per second.
    pub fn fps(&self) -> (r: i32)
        ensures
            r == match self {
                FpsMode::Fps5 => 5int,
                FpsMode::Fps15 => 15int,
                FpsMode::Fps30 => 30int,
            },
    {
        match self {
            FpsMode::Fps5 => 5,
            FpsMode::Fps15 => 15,
            FpsMode::Fps30 => 30,
        }
    }
}

/// The color stream resolutions the sensor offers.
#[derive(Clone, Copy, Debug, PartialEq, Eq, Structural)]
pub enum ColorResolution {
    Res720P,
    Res1080P,
    Res1440P,
    Res1536P,
    Res2160P,
    Res3072P,
}

impl ColorResolution {
    /// Width and height of the color image in this resolution.
    pub fn dimensions(&self) -> (r: (i32, i32))
        ensures
            r == match self {
                ColorResolution::Res720P => (1280i32, 720i32),
                ColorResolution::Res1080P => (1920i32, 1080i32),
                ColorResolution::Res1440P => (2560i32, 1440i32),
                ColorResolution::Res1536P => (2048i32, 1536i32),
                ColorResolution::Res2160P => (3840i32, 2160i32),
                ColorResolution::Res3072P => (4096i32, 3072i32),
            },
    {
        match self {
            ColorResolution::Res720P => (1280, 720),
            ColorResolution::Res1080P => (1920, 1080),
            ColorResolution::Res1440P => (2560, 1440),
            ColorResolution::Res1536P => (2048, 1536),
            ColorResolution::Res2160P => (3840, 2160),
            ColorResolution::Res3072P => (4096, 3072),
        }
    }
}

/// The depth sensing modes the sensor offers.
#[derive(Clone, Copy, Debug, PartialEq, Eq, Structural)]
pub enum DepthMode {
    NormalFov2x2Binned,
    NormalFovUnbinned,
    WideFov2x2Binned,
    WideFovUnbinned,
}

impl DepthMode {
    /// Width and height of the depth image in this mode.
    pub fn dimensions(&self) -> (r: (i32, i32))
        ensures
            r == match self {
                DepthMode::NormalFov2x2Binned => (320i32, 288i32),
                DepthMode::NormalFovUnbinned => (640i32, 576i32),
                DepthMode::WideFov2x2Binned => (512i32, 512i32),
                DepthMode::WideFovUnbinned => (1024i32, 1024i32),
            },
    {
        match self {
            DepthMode::NormalFov2x2Binned => (320, 288),
            DepthMode::NormalFovUnbinned => (640, 576),
            DepthMode::WideFov2x2Binned => (512, 512),
            DepthMode::WideFovUnbinned => (1024, 1024),
        }
    }
}

/// Which image stream the source element serves.
#[derive(Clone, Copy, Debug, PartialEq, Eq, Structural)]
pub enum Mode {
    Color,
    Ir,
    Depth,
}

/// The image kind a serving mode reads from a capture.
pub fn image_type_of_mode(mode: Mode) -> (r: ImageType)
    ensures
        r == match mode {
            Mode::Color => ImageType::Color,
            Mode::Ir => ImageType::Infrared,
            Mode::Depth => ImageType::Depth,
        },
{
    match mode {
        Mode::Color => ImageType::Color,
        Mode::Ir => ImageType::Infrared,
        Mode::Depth => ImageType::Depth,
    }
}

/// The source configuration: rate, resolutions, and which stream to serve.
pub struct Settings {
    pub fps_mode: FpsMode,
    pub color_resolution: ColorResolution,
    pub depth_mode: DepthMode,
    pub mode: Mode,
}

impl Settings {
    /// The image dimensions the current mode produces; the passive
    /// infrared stream is fixed at 1024 x 1024.
    pub fn resolution(&self) -> (r: (i32, i32))
        ensures
            r == match self.mode {
                Mode::Color => match self.color_resolution {
                    ColorResolution::Res720P => (1280i32, 720i32),
                    ColorResolution::Res1080P => (1920i32, 1080i32),
                    ColorResolution::Res1440P => (2560i32, 1440i32),
                    ColorResolution::Res1536P => (2048i32, 1536i32),
                    ColorResolution::Res2160P => (3840i32, 2160i32),
                    ColorResolution::Res3072P => (4096i32, 3072i32),
                },
                Mode::Ir => (1024i32, 1024i32),
                Mode::Depth => match self.depth_mode {
                    DepthMode::NormalFov2x2Binned => (320i32, 288i32),
                    DepthMode::NormalFovUnbinned => (640i32, 576i32),
                    DepthMode::WideFov2x2Binned => (512i32, 512i32),
                    DepthMode::WideFovUnbinned => (1024i32, 1024i32),
                },
            },
    {
        match self.mode {
            Mode::Color => self.color_resolution.dimensions(),
            Mode::Ir => (1024, 1024),
            Mode::Depth => self.depth_mode.dimensions(),
        }
    }
}

impl Default for Settings {
    /// The defaults: 30 fps, 720p color, binned normal-field depth,
    /// serving the depth stream.
    fn default() -> (r: Self)
        ensures
            r.fps_mode == FpsMode::Fps30,
            r.color_resolution == ColorResolution::Res720P,
            r.depth_mode == DepthMode::NormalFov2x2Binned,
            r.mode == Mode::Depth,
    {
        Settings {
            fps_mode: FpsMode::Fps30,
            color_resolution: ColorResolution::Res720P,
            depth_mode: DepthMode::NormalFov2x2Binned,
            mode: Mode::Depth,
        }
    }
}

/// Nominal duration of one frame at the given rate, in nanoseconds,
/// following the 1001/1000 broadcast cadence: 1001 s per 1000 * fps
/// frames, truncated.
pub fn frame_duration_nanos(fps: i32) -> (r: u64)
    requires
        fps >= 1,
    ensures
        r == 1_001_000_000_000int / ((fps as int) * 1000),
{
    1_001_000_000_000u64 / ((fps as u64) * 1000)
}

/// What serving one capture does to the stream state: the image's
/// timestamp establishes the epoch if none is set, the frame enters the
/// handoff buffer, and the presentation metadata is computed — timestamp
/// relative to the epoch, nominal duration from the rate, offset from the
/// frame counter.
pub fn create_frame_meta<T>(
    fd: &mut FrameData<T>,
    frame: T,
    system_timestamp_nanos: u64,
    fps: i32,
) -> (meta: FrameMeta)
    requires
        fps >= 1,
        (old(fd).epoch_nanos matches Some(e) ==> e <= system_timestamp_nanos),
    ensures
        ({
            let (s1, epoch) = spec_start_timestamp(*old(fd), system_timestamp_nanos);
            &&& *final(fd) == spec_add_frame(s1, frame)
            &&& meta.pts_nanos == system_timestamp_nanos - epoch
            &&& meta.duration_nanos == 1_001_000_000_000int / ((fps as int) * 1000)
            &&& meta.offset == old(fd).frame_counter
        }),
{
    let epoch = fd.start_timestamp(system_timestamp_nanos);
    let pts = system_timestamp_nanos - epoch;
    let duration = frame_duration_nanos(fps);
    let offset = fd.add_frame(frame);
    FrameMeta { pts_nanos: pts, duration_nanos: duration, offset: offset as u64 }
}

} // verus!
