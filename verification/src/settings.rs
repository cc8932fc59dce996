//! The capture-related settings the application persists: which
//! devices to open and with what stream parameters. Only the fields
//! the pipelines consume live here; presentation settings stay with
//! the application shell.

use vstd::prelude::*;

verus! {

/// Audio passthrough is on unless the stored settings say otherwise.
pub fn default_passthrough_enabled() -> (b: bool)
    ensures
        b,
{
    true
}

/// The video capture request: device, resolution, pixel format and
/// frame rate, each optional.
#[derive(Debug, Clone)]
pub struct VideoSettings {
    /// Name of the capture device, or the first available one.
    pub device_name: Option<String>,
    /// Requested width and height, pixels.
    pub resolution: Option<(u32, u32)>,
    /// Requested pixel-format hint.
    pub format: Option<String>,
    /// Requested frame rate.
    pub fps: Option<u32>,
}

impl Default for VideoSettings {
    /// 720p packed 4:2:2 at 60 frames per second, on whichever device
    /// enumeration offers first.
    fn default() -> (r: VideoSettings)
        ensures
            r.device_name is None,
            r.resolution == Some((1280u32, 720u32)),
            r.format matches Some(f) && f@ == "YUY2"@,
            r.fps == Some(60u32),
    {
        VideoSettings {
            device_name: None,
            resolution: Some((1280, 720)),
            format: Some("YUY2".to_owned()),
            fps: Some(60),
        }
    }
}

/// The audio passthrough request: devices, stream parameters, and the
/// passthrough policy.
#[derive(Debug, Clone)]
pub struct AudioSettings {
    /// Name of the input device, or the system default.
    pub input_device_name: Option<String>,
    /// Name of the output device, or the system default.
    pub output_device_name: Option<String>,
    /// Requested sample rate, hertz.
    pub sample_rate: Option<u32>,
    /// Requested channel count.
    pub channels: Option<u16>,
    /// Whether the output callback passes samples through.
    pub passthrough_enabled: bool,
}

impl Default for AudioSettings {
    /// Default devices at 48 kHz stereo, passthrough on.
    fn default() -> (r: AudioSettings)
        ensures
            r.input_device_name is None,
            r.output_device_name is None,
            r.sample_rate == Some(48000u32),
            r.channels == Some(2u16),
            r.passthrough_enabled,
    {
        AudioSettings {
            input_device_name: None,
            output_device_name: None,
            sample_rate: Some(48000),
            channels: Some(2),
            passthrough_enabled: true,
        }
    }
}

} // verus!
