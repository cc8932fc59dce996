//! The latest-frame store of the video pipeline: a decoded RGB frame,
//! and a double-buffered slot pair with a dirty flag that hands the
//! most recently completed frame to a consumer without tearing, plus a
//! bounded window of inter-arrival intervals kept for diagnostics.

use vstd::prelude::*;
use std::collections::VecDeque;

verus! {

/// A fully decoded video frame: packed RGB, three bytes per pixel.
/// Immutable once constructed.
pub struct VideoFrame {
    pub width: usize,
    pub height: usize,
    pub data: Vec<u8>,
}

/// Two frames hold the same picture: same size, same bytes.
pub open spec fn frame_eq(a: VideoFrame, b: VideoFrame) -> bool {
    &&& a.width == b.width
    &&& a.height == b.height
    &&& a.data@ == b.data@
}

impl VideoFrame {
    /// The byte buffer holds exactly three bytes for every pixel.
    pub open spec fn wf(&self) -> bool {
        self.data@.len() == self.width * self.height * 3
    }

    /// An independent copy of the frame.
    pub fn duplicate(&self) -> (r: VideoFrame)
        ensures
            frame_eq(r, *self),
    {
        let data = clone_bytes(&self.data);
        VideoFrame { width: self.width, height: self.height, data }
    }
}

impl Clone for VideoFrame {
    /// An independent copy of the frame.
    fn clone(&self) -> (r: VideoFrame)
        ensures
            frame_eq(r, *self),
    {
        self.duplicate()
    }
}

/// Copy a byte buffer; the copy holds the same bytes.
fn clone_bytes(v: &Vec<u8>) -> (r: Vec<u8>)
    ensures
        r@ == v@,
{
    let r = v.clone();
    proof {
        assert(r@ =~= v@);
    }
    r
}

/// Most inter-arrival samples the diagnostics window retains.
pub const INTERVAL_WINDOW: usize = 120;

/// A saturating increment for the diagnostic frame counters.
pub open spec fn sat_inc(x: u64) -> u64 {
    if x == u64::MAX {
        x
    } else {
        (x + 1) as u64
    }
}

/// The interval recorded for a frame arriving at `now` after one at
/// `prev`, in milliseconds, clipped into the u32 range; a clock that
/// moved backwards records zero.
pub open spec fn arrival_interval(prev: u64, now: u64) -> u32 {
    if now < prev {
        0
    } else if now - prev > u32::MAX {
        u32::MAX
    } else {
        (now - prev) as u32
    }
}

/// The diagnostics window after recording `dt`: the oldest sample is
/// evicted once the window is full.
pub open spec fn window_push(s: Seq<u32>, dt: u32) -> Seq<u32> {
    if s.len() >= INTERVAL_WINDOW {
        s.drop_first().push(dt)
    } else {
        s.push(dt)
    }
}

/// Double-buffered latest-frame store. The capture side stores into
/// `back` and marks the pair dirty; the consumer side swaps `back`
/// into `front` under exclusive access, so it always sees the most
/// recently completed frame and never a half-written one.
pub struct FrameBuffer {
    front: Option<VideoFrame>,
    back: Option<VideoFrame>,
    dirty: bool,
    last_decode_ms: u32,
    fast_count: u64,
    fallback_count: u64,
    last_frame_at_ms: Option<u64>,
    frame_intervals: VecDeque<u32>,
}

impl FrameBuffer {
    /// Frame last handed to the consumer, if any.
    pub closed spec fn front_frame(&self) -> Option<VideoFrame> {
        self.front
    }

    /// Most recently decoded frame, if any.
    pub closed spec fn back_frame(&self) -> Option<VideoFrame> {
        self.back
    }

    /// A newer frame sits in `back` and has not been handed out yet.
    pub closed spec fn is_dirty(&self) -> bool {
        self.dirty
    }

    /// Decode duration of the most recent frame, milliseconds.
    pub closed spec fn decode_ms(&self) -> u32 {
        self.last_decode_ms
    }

    /// Frames decoded through the fast packed-4:2:2 path.
    pub closed spec fn fast_frames(&self) -> u64 {
        self.fast_count
    }

    /// Frames decoded through the generic fallback path.
    pub closed spec fn fallback_frames(&self) -> u64 {
        self.fallback_count
    }

    /// Arrival time of the most recent frame, if one arrived.
    pub closed spec fn last_arrival(&self) -> Option<u64> {
        self.last_frame_at_ms
    }

    /// The recorded inter-arrival intervals, oldest first.
    pub closed spec fn intervals(&self) -> Seq<u32> {
        self.frame_intervals@
    }

    /// The frame a consumer would observe next: the dirty `back` slot
    /// wins over the settled `front` slot.
    pub open spec fn latest_frame(&self) -> Option<VideoFrame> {
        if self.is_dirty() {
            self.back_frame()
        } else {
            self.front_frame()
        }
    }

    /// The diagnostics window never outgrows its bound, and every
    /// stored frame is well-formed.
    pub open spec fn wf(&self) -> bool {
        &&& self.intervals().len() <= INTERVAL_WINDOW
        &&& match self.front_frame() {
            Some(f) => f.wf(),
            None => true,
        }
        &&& match self.back_frame() {
            Some(f) => f.wf(),
            None => true,
        }
    }

    /// An empty store: no frames, nothing dirty, no diagnostics.
    pub fn new() -> (fb: FrameBuffer)
        ensures
            fb.wf(),
            fb.front_frame() is None,
            fb.back_frame() is None,
            !fb.is_dirty(),
            fb.decode_ms() == 0,
            fb.fast_frames() == 0,
            fb.fallback_frames() == 0,
            fb.last_arrival() is None,
            fb.intervals() == Seq::<u32>::empty(),
    {
        FrameBuffer {
            front: None,
            back: None,
            dirty: false,
            last_decode_ms: 0,
            fast_count: 0,
            fallback_count: 0,
            last_frame_at_ms: None,
            frame_intervals: VecDeque::with_capacity(INTERVAL_WINDOW),
        }
    }

    /// Store a freshly decoded frame into the `back` slot, mark the
    /// pair dirty, and record decode timing, which decode path ran,
    /// and the interval since the previous arrival at `now_ms`.
    pub fn push_back(&mut self, frame: VideoFrame, decode_ms: u32, fast: bool, now_ms: u64)
        requires
            old(self).wf(),
            frame.wf(),
        ensures
            final(self).wf(),
            final(self).back_frame() == Some(frame),
            final(self).is_dirty(),
            final(self).front_frame() == old(self).front_frame(),
            final(self).decode_ms() == decode_ms,
            final(self).fast_frames() == (if fast { sat_inc(old(self).fast_frames()) } else { old(self).fast_frames() }),
            final(self).fallback_frames() == (if fast { old(self).fallback_frames() } else { sat_inc(old(self).fallback_frames()) }),
            final(self).last_arrival() == Some(now_ms),
            final(self).intervals() == (match old(self).last_arrival() {
                Some(prev) => window_push(old(self).intervals(), arrival_interval(prev, now_ms)),
                None => old(self).intervals(),
            }),
    {
        self.back = Some(frame);
        self.dirty = true;
        self.last_decode_ms = decode_ms;
        if fast {
            if self.fast_count < u64::MAX {
                self.fast_count = self.fast_count + 1;
            }
        } else {
            if self.fallback_count < u64::MAX {
                self.fallback_count = self.fallback_count + 1;
            }
        }
        if let Some(prev) = self.last_frame_at_ms {
            let dt64: u64 = if now_ms >= prev {
                now_ms - prev
            } else {
                0
            };
            let dt: u32 = if dt64 > u32::MAX as u64 {
                u32::MAX
            } else {
                dt64 as u32
            };
            if self.frame_intervals.len() >= INTERVAL_WINDOW {
                self.frame_intervals.pop_front();
            }
            self.frame_intervals.push_back(dt);
        }
        self.last_frame_at_ms = Some(now_ms);
    }

    /// Hand out the latest completed frame. A dirty pair is settled
    /// first: `front` and `back` swap and the dirty flag clears, so a
    /// repeated call returns the same frame again. The caller gets an
    /// independent copy, or nothing when no frame has ever arrived.
    pub fn take_front(&mut self) -> (r: Option<VideoFrame>)
        requires
            old(self).wf(),
        ensures
            final(self).wf(),
            final(self).front_frame() == old(self).latest_frame(),
            final(self).back_frame() == (if old(self).is_dirty() { old(self).front_frame() } else { old(self).back_frame() }),
            !final(self).is_dirty(),
            final(self).decode_ms() == old(self).decode_ms(),
            final(self).fast_frames() == old(self).fast_frames(),
            final(self).fallback_frames() == old(self).fallback_frames(),
            final(self).last_arrival() == old(self).last_arrival(),
            final(self).intervals() == old(self).intervals(),
            (match (r, old(self).latest_frame()) {
                (Some(f), Some(g)) => frame_eq(f, g) && f.wf(),
                (None, None) => true,
                _ => false,
            }),
    {
        if self.dirty {
            std::mem::swap(&mut self.front, &mut self.back);
            self.dirty = false;
        }
        match &self.front {
            Some(frame) => Some(frame.duplicate()),
            None => None,
        }
    }

    /// Drop a stale `back` slot once it has been handed out, so that
    /// at most two frames stay resident.
    pub fn clear_old_frames(&mut self)
        requires
            old(self).wf(),
        ensures
            final(self).wf(),
            final(self).back_frame() == (if old(self).is_dirty() { old(self).back_frame() } else { None::<VideoFrame> }),
            final(self).front_frame() == old(self).front_frame(),
            final(self).is_dirty() == old(self).is_dirty(),
            final(self).decode_ms() == old(self).decode_ms(),
            final(self).fast_frames() == old(self).fast_frames(),
            final(self).fallback_frames() == old(self).fallback_frames(),
            final(self).last_arrival() == old(self).last_arrival(),
            final(self).intervals() == old(self).intervals(),
    {
        if self.back.is_some() && !self.dirty {
            self.back = None;
        }
    }
}

/// Handing out the latest frame twice in a row is stable: the first
/// call settles the swap and leaves the pair clean, so the second call
/// observes the same frame again without re-swapping.
pub proof fn lemma_take_front_stable(before: FrameBuffer, settled: FrameBuffer)
    requires
        settled.front_frame() == before.latest_frame(),
        !settled.is_dirty(),
    ensures
        settled.latest_frame() == before.latest_frame(),
{
}

/// After a frame is pushed, the next hand-out observes exactly that
/// frame: the push left the pair dirty with the new frame in `back`.
pub proof fn lemma_take_front_after_push(pushed: FrameBuffer, frame: VideoFrame)
    requires
        pushed.back_frame() == Some(frame),
        pushed.is_dirty(),
    ensures
        pushed.latest_frame() == Some(frame),
{
}

} // verus!
