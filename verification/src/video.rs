//! The video capture pipeline: format negotiation for a capture
//! request, the frame-callback decision between the fast packed-4:2:2
//! decode and the generic fallback, and the controller that owns one
//! camera session and its latest-frame store.

use vstd::prelude::*;
use crate::frame::{FrameBuffer, VideoFrame, frame_eq, sat_inc, window_push, arrival_interval};
use crate::pixels::{pair_decoded, yuy2_to_rgb_naive};

verus! {

/// Pixel layout a capture device reports for a raw frame.
#[derive(Debug, PartialEq, Eq, Structural, Clone, Copy)]
pub enum SourceFormat {
    /// Packed 4:2:2, two luma samples and a shared chroma pair per
    /// four bytes: the fast decode path.
    Yuyv,
    /// Any other layout: left to the generic fallback decoder.
    Other,
}

/// Why a capture session could not start.
#[derive(Debug, PartialEq, Eq, Structural, Clone, Copy)]
pub enum VideoError {
    /// A device was requested by name and the name is not in the
    /// enumerated list.
    DeviceNotFound,
    /// No name was given and no video device exists at all.
    NoVideoDevices,
}

impl VideoError {
    /// A short description of the failure.
    pub fn describe(&self) -> (r: String)
        ensures
            (match self {
                VideoError::DeviceNotFound => r@ == "device not found"@,
                VideoError::NoVideoDevices => r@ == "no video devices found"@,
            }),
    {
        match self {
            VideoError::DeviceNotFound => "device not found".to_owned(),
            VideoError::NoVideoDevices => "no video devices found".to_owned(),
        }
    }
}

/// A negotiated capture request, ready to open a camera stream with.
#[derive(Debug, PartialEq, Eq, Structural, Clone, Copy)]
pub struct CapturePlan {
    /// Position of the chosen device in the enumerated list.
    pub device_index: usize,
    /// Requested frame width, pixels.
    pub width: u32,
    /// Requested frame height, pixels.
    pub height: u32,
    /// Requested frame rate, clamped into 15..=120.
    pub fps: u32,
    /// Requested pixel layout.
    pub format: SourceFormat,
}

/// The frame rate a capture request asks for: the hint, or 60 when
/// none was given, clamped into the 15..=120 range.
pub open spec fn spec_clamped_fps(hint: Option<u32>) -> int {
    let f = (match hint {
        Some(x) => x as int,
        None => 60,
    });
    if f < 15 {
        15
    } else if f > 120 {
        120
    } else {
        f
    }
}

/// Negotiate a capture request against the enumerated device names.
/// No name selects the first device; a name selects the first device
/// bearing it. Every format hint negotiates to the packed 4:2:2
/// layout, the one layout stable across backends; with no resolution
/// hint the request is 1280x720 at 60 frames per second.
pub fn plan_capture(
    device_name: &Option<String>,
    device_names: &Vec<String>,
    resolution: Option<(u32, u32)>,
    format: &Option<String>,
    fps: Option<u32>,
) -> (r: Result<CapturePlan, VideoError>)
    ensures
        (match r {
            Ok(plan) => {
                &&& (match device_name {
                    None => plan.device_index == 0 && device_names@.len() > 0,
                    Some(name) => plan.device_index < device_names@.len()
                        && device_names@[plan.device_index as int]@ == name@
                        && (forall|j: int| 0 <= j < plan.device_index ==> (#[trigger] device_names@[j])@ != name@),
                })
                &&& (match resolution {
                    Some((w, h)) => plan.width == w && plan.height == h
                        && plan.fps as int == spec_clamped_fps(fps),
                    None => plan.width == 1280 && plan.height == 720 && plan.fps == 60,
                })
                &&& plan.format == SourceFormat::Yuyv
            },
            Err(VideoError::DeviceNotFound) => (match device_name {
                Some(name) => forall|j: int| 0 <= j < device_names@.len() ==> (#[trigger] device_names@[j])@ != name@,
                None => false,
            }),
            Err(VideoError::NoVideoDevices) => device_name is None && device_names@.len() == 0,
        }),
{
    let device_index: usize = match device_name {
        None => {
            if device_names.len() == 0 {
                return Err(VideoError::NoVideoDevices);
            }
            0
        },
        Some(name) => {
            let mut i: usize = 0;
            let mut found: Option<usize> = None;
            while i < device_names.len()
                invariant
                    *device_name == Some(*name),
                    i <= device_names@.len(),
                    (match found {
                        Some(k) => k < i && device_names@[k as int]@ == name@
                            && (forall|j: int| 0 <= j < k ==> (#[trigger] device_names@[j])@ != name@),
                        None => forall|j: int| 0 <= j < i ==> (#[trigger] device_names@[j])@ != name@,
                    }),
                decreases device_names@.len() - i,
            {
                if found.is_none() && device_names[i] == *name {
                    found = Some(i);
                }
                i = i + 1;
            }
            match found {
                Some(k) => k,
                None => {
                    return Err(VideoError::DeviceNotFound);
                },
            }
        },
    };
    let (width, height, fps_value): (u32, u32, u32) = match resolution {
        Some((w, h)) => {
            let f: u32 = match fps {
                Some(x) => x,
                None => 60,
            };
            let clamped: u32 = if f < 15 {
                15
            } else if f > 120 {
                120
            } else {
                f
            };
            (w, h, clamped)
        },
        None => (1280, 720, 60),
    };
    let _ = format;
    Ok(CapturePlan { device_index, width, height, fps: fps_value, format: SourceFormat::Yuyv })
}

/// What the frame callback does with one raw frame.
#[derive(Debug, PartialEq, Eq, Structural, Clone, Copy)]
pub enum FrameAction {
    /// Packed 4:2:2 of even width with enough bytes: decode in place.
    DecodeFast,
    /// Another layout, or an odd width: hand to the generic decoder.
    DecodeFallback,
    /// Packed 4:2:2 whose buffer is undersized: drop the frame.
    Discard,
}

/// The decision rule of the frame callback. A packed 4:2:2 frame of
/// even width takes the fast path when its buffer holds at least two
/// bytes per pixel and is dropped when undersized; everything else
/// goes to the generic fallback decoder.
pub open spec fn spec_classify(format: SourceFormat, width: int, height: int, data_len: int) -> FrameAction {
    if format == SourceFormat::Yuyv && width % 2 == 0 {
        if data_len >= width * height * 2 {
            FrameAction::DecodeFast
        } else {
            FrameAction::Discard
        }
    } else {
        FrameAction::DecodeFallback
    }
}

/// Classify one raw frame.
pub fn classify_frame(format: SourceFormat, width: usize, height: usize, data_len: usize) -> (a:
    FrameAction)
    requires
        width * height * 3 <= usize::MAX,
    ensures
        a == spec_classify(format, width as int, height as int, data_len as int),
{
    match format {
        SourceFormat::Yuyv => {
            if width % 2 == 0 {
                let needed: usize = width * height * 2;
                if data_len >= needed {
                    FrameAction::DecodeFast
                } else {
                    FrameAction::Discard
                }
            } else {
                FrameAction::DecodeFallback
            }
        },
        SourceFormat::Other => FrameAction::DecodeFallback,
    }
}

/// Result of running the frame-callback decision on one raw frame.
pub enum DecodeOutcome {
    /// The fast path ran; the decoded frame is ready for the store.
    Decoded(VideoFrame),
    /// The frame needs the generic fallback decoder.
    NeedsFallback,
    /// The frame was dropped.
    Discarded,
}

/// Run the frame-callback decision on one raw frame: decode a
/// qualifying packed 4:2:2 buffer into an RGB frame, hand anything
/// else to the caller's fallback decoder, and drop an undersized
/// buffer rather than read past it.
pub fn process_raw_frame(format: SourceFormat, width: usize, height: usize, data: &[u8]) -> (r:
    DecodeOutcome)
    requires
        width * height * 3 <= usize::MAX,
    ensures
        (match r {
            DecodeOutcome::Decoded(f) => {
                &&& spec_classify(format, width as int, height as int, data@.len() as int)
                    == FrameAction::DecodeFast
                &&& f.wf()
                &&& f.width == width
                &&& f.height == height
                &&& f.data@.len() == width * height * 3
                &&& forall|p: int| 0 <= p < width * height / 2 ==> #[trigger] pair_decoded(data@, f.data@, p)
            },
            DecodeOutcome::NeedsFallback => spec_classify(format, width as int, height as int, data@.len() as int)
                == FrameAction::DecodeFallback,
            DecodeOutcome::Discarded => spec_classify(format, width as int, height as int, data@.len() as int)
                == FrameAction::Discard,
        }),
{
    match classify_frame(format, width, height, data.len()) {
        FrameAction::DecodeFast => {
            let rgb = yuy2_to_rgb_naive(width, height, data);
            DecodeOutcome::Decoded(VideoFrame { width, height, data: rgb })
        },
        FrameAction::DecodeFallback => DecodeOutcome::NeedsFallback,
        FrameAction::Discard => DecodeOutcome::Discarded,
    }
}

/// The video capture controller: owns one camera session's active
/// flag and the latest-frame store its callback fills.
pub struct VideoCapture {
    frames: FrameBuffer,
    is_active: bool,
}

impl VideoCapture {
    /// The latest-frame store of the current session.
    pub closed spec fn buffer(&self) -> FrameBuffer {
        self.frames
    }

    /// A capture session is running.
    pub closed spec fn spec_active(&self) -> bool {
        self.is_active
    }

    /// The store stays well-formed.
    pub open spec fn wf(&self) -> bool {
        self.buffer().wf()
    }

    /// An inactive controller with an empty store.
    pub fn new() -> (v: VideoCapture)
        ensures
            v.wf(),
            !v.spec_active(),
            v.buffer().front_frame() is None,
            v.buffer().back_frame() is None,
            !v.buffer().is_dirty(),
    {
        VideoCapture { frames: FrameBuffer::new(), is_active: false }
    }

    /// Enter the active state with a fresh store, discarding whatever
    /// a previous session left behind.
    pub fn begin_capture(&mut self)
        ensures
            final(self).wf(),
            final(self).spec_active(),
            final(self).buffer().front_frame() is None,
            final(self).buffer().back_frame() is None,
            !final(self).buffer().is_dirty(),
            final(self).buffer().intervals() == Seq::<u32>::empty(),
            final(self).buffer().last_arrival() is None,
    {
        self.frames = FrameBuffer::new();
        self.is_active = true;
    }

    /// Leave the active state and discard the store; idempotent.
    pub fn stop_capture(&mut self)
        ensures
            final(self).wf(),
            !final(self).spec_active(),
            final(self).buffer().front_frame() is None,
            final(self).buffer().back_frame() is None,
            !final(self).buffer().is_dirty(),
    {
        self.frames = FrameBuffer::new();
        self.is_active = false;
    }

    /// Store one decoded frame, with its decode duration, which path
    /// decoded it, and its arrival time; the work the frame callback
    /// does after a successful decode.
    pub fn store_frame(&mut self, frame: VideoFrame, decode_ms: u32, used_fast_path: bool, now_ms: u64)
        requires
            old(self).wf(),
            frame.wf(),
        ensures
            final(self).wf(),
            final(self).spec_active() == old(self).spec_active(),
            final(self).buffer().back_frame() == Some(frame),
            final(self).buffer().is_dirty(),
            final(self).buffer().front_frame() == old(self).buffer().front_frame(),
            final(self).buffer().decode_ms() == decode_ms,
            final(self).buffer().fast_frames() == (if used_fast_path {
                sat_inc(old(self).buffer().fast_frames())
            } else {
                old(self).buffer().fast_frames()
            }),
            final(self).buffer().fallback_frames() == (if used_fast_path {
                old(self).buffer().fallback_frames()
            } else {
                sat_inc(old(self).buffer().fallback_frames())
            }),
            final(self).buffer().last_arrival() == Some(now_ms),
            final(self).buffer().intervals() == (match old(self).buffer().last_arrival() {
                Some(prev) => window_push(old(self).buffer().intervals(), arrival_interval(prev, now_ms)),
                None => old(self).buffer().intervals(),
            }),
    {
        self.frames.push_back(frame, decode_ms, used_fast_path, now_ms);
    }

    /// Hand out the most recently completed frame, or nothing when no
    /// frame has arrived; afterwards at most the handed-out frame
    /// stays resident.
    pub fn get_latest_frame(&mut self) -> (r: Option<VideoFrame>)
        requires
            old(self).wf(),
        ensures
            final(self).wf(),
            final(self).spec_active() == old(self).spec_active(),
            (match (r, old(self).buffer().latest_frame()) {
                (Some(f), Some(g)) => frame_eq(f, g) && f.wf(),
                (None, None) => true,
                _ => false,
            }),
            final(self).buffer().front_frame() == old(self).buffer().latest_frame(),
            final(self).buffer().back_frame() is None,
            !final(self).buffer().is_dirty(),
            final(self).buffer().intervals() == old(self).buffer().intervals(),
            final(self).buffer().last_arrival() == old(self).buffer().last_arrival(),
    {
        let frame = self.frames.take_front();
        self.frames.clear_old_frames();
        frame
    }

    /// Whether a capture session is running.
    pub fn is_active(&self) -> (r: bool)
        ensures
            r == self.spec_active(),
    {
        self.is_active
    }

    /// The format table offered to the settings dialog: each format
    /// name with the resolutions assumed available under it.
    pub fn get_supported_formats(&self) -> (r: Vec<(String, Vec<(u32, u32)>)>)
        ensures
            r@.len() == 2,
            r@[0].0@ == "MJPEG"@,
            r@[0].1@ == seq![(1920u32, 1080u32), (1280u32, 720u32), (640u32, 480u32)],
            r@[1].0@ == "YUY2"@,
            r@[1].1@ == seq![(1280u32, 720u32), (640u32, 480u32)],
    {
        let mjpeg: Vec<(u32, u32)> = vec![(1920, 1080), (1280, 720), (640, 480)];
        let yuy2: Vec<(u32, u32)> = vec![(1280, 720), (640, 480)];
        let mut r: Vec<(String, Vec<(u32, u32)>)> = Vec::new();
        r.push(("MJPEG".to_owned(), mjpeg));
        r.push(("YUY2".to_owned(), yuy2));
        proof {
            assert(r@[0].1@ =~= seq![(1920u32, 1080u32), (1280u32, 720u32), (640u32, 480u32)]);
            assert(r@[1].1@ =~= seq![(1280u32, 720u32), (640u32, 480u32)]);
        }
        r
    }

    /// The per-device format table: a fixed table that does not
    /// consult the device's own capabilities.
    pub fn get_supported_formats_for(_device: &str) -> (r: Vec<(String, Vec<(u32, u32)>)>)
        ensures
            r@.len() == 3,
            r@[0].0@ == "MJPEG"@,
            r@[0].1@ == seq![(1920u32, 1080u32), (1280u32, 720u32), (640u32, 480u32)],
            r@[1].0@ == "YUY2"@,
            r@[1].1@ == seq![(1280u32, 720u32), (640u32, 480u32)],
            r@[2].0@ == "RGB24"@,
            r@[2].1@ == seq![(1280u32, 720u32), (640u32, 480u32)],
    {
        let mjpeg: Vec<(u32, u32)> = vec![(1920, 1080), (1280, 720), (640, 480)];
        let yuy2: Vec<(u32, u32)> = vec![(1280, 720), (640, 480)];
        let rgb24: Vec<(u32, u32)> = vec![(1280, 720), (640, 480)];
        let mut r: Vec<(String, Vec<(u32, u32)>)> = Vec::new();
        r.push(("MJPEG".to_owned(), mjpeg));
        r.push(("YUY2".to_owned(), yuy2));
        r.push(("RGB24".to_owned(), rgb24));
        proof {
            assert(r@[0].1@ =~= seq![(1920u32, 1080u32), (1280u32, 720u32), (640u32, 480u32)]);
            assert(r@[1].1@ =~= seq![(1280u32, 720u32), (640u32, 480u32)]);
            assert(r@[2].1@ =~= seq![(1280u32, 720u32), (640u32, 480u32)]);
        }
        r
    }
}

} // verus!
