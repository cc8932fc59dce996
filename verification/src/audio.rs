//! The audio passthrough engine: volume state, the per-sample work of
//! the two device callbacks (feeding the channel from an input buffer,
//! rendering an output buffer from the channel), channel sizing, and
//! the controller that owns one passthrough session.

use vstd::prelude::*;
use crate::ring::{RingChannel, ring_samples, ring_capacity, ring_wf};

verus! {

/// A percentage clamped into the accepted 0..=200 volume range.
pub open spec fn clamp_percent(p: int) -> int {
    if p < 0 {
        0
    } else if p > 200 {
        200
    } else {
        p
    }
}

/// The amplitude of `s` scaled to `percent` of full volume: the
/// magnitude is multiplied by `percent`, divided by 100 truncating
/// toward zero, and saturated into the signed 16-bit range.
pub open spec fn scaled_sample(s: int, percent: int) -> int {
    let mag = (if s >= 0 { s } else { -s }) * percent / 100;
    if s >= 0 {
        if mag > i16::MAX {
            i16::MAX as int
        } else {
            mag
        }
    } else {
        if mag > 32768 {
            i16::MIN as int
        } else {
            -mag
        }
    }
}

/// The shared output volume: a percentage in 0..=200 standing for an
/// amplitude multiplier in [0, 2]; 100 is unity gain.
pub struct Volume {
    percent: u16,
}

impl Volume {
    /// The stored percentage.
    pub closed spec fn spec_percent(&self) -> u16 {
        self.percent
    }

    /// The percentage never leaves the accepted range.
    pub open spec fn wf(&self) -> bool {
        self.spec_percent() <= 200
    }

    /// Unity gain.
    pub fn new() -> (v: Volume)
        ensures
            v.wf(),
            v.spec_percent() == 100,
    {
        Volume { percent: 100 }
    }

    /// The current percentage, 0..=200.
    pub fn percent(&self) -> (p: u16)
        ensures
            p == self.spec_percent(),
    {
        self.percent
    }

    /// Replace the volume; an out-of-range request is clamped into
    /// 0..=200, never rejected.
    pub fn set_percent(&mut self, requested: i32)
        ensures
            final(self).wf(),
            final(self).spec_percent() as int == clamp_percent(requested as int),
    {
        if requested < 0 {
            self.percent = 0;
        } else if requested > 200 {
            self.percent = 200;
        } else {
            self.percent = requested as u16;
        }
    }
}

/// Scale one sample by the volume. Unity gain returns the sample
/// unchanged; 200 percent can saturate at the ends of the range.
pub fn scale_sample(s: i16, volume: &Volume) -> (r: i16)
    requires
        volume.wf(),
    ensures
        r as int == scaled_sample(s as int, volume.spec_percent() as int),
{
    let percent: u32 = volume.percent() as u32;
    if s >= 0 {
        proof {
            assert((s as u32) * percent <= 32767 * 200) by (nonlinear_arith)
                requires
                    0 <= s as u32 <= 32767,
                    percent <= 200,
            ;
        }
        let mag: u32 = (s as u32) * percent / 100;
        if mag > 32767 {
            32767
        } else {
            mag as i16
        }
    } else {
        let neg: u32 = (-(s as i32)) as u32;
        proof {
            assert(neg * percent <= 32768 * 200) by (nonlinear_arith)
                requires
                    neg <= 32768,
                    percent <= 200,
            ;
        }
        let mag: u32 = neg * percent / 100;
        if mag >= 32768 {
            i16::MIN
        } else {
            let m: i16 = mag as i16;
            -m
        }
    }
}

/// Scaling by 100 percent is exact: every sample passes the volume
/// stage unchanged.
pub proof fn lemma_unit_volume(s: i16)
    ensures
        scaled_sample(s as int, 100) == s as int,
{
}

/// Feed the channel from one input buffer, in order, dropping what no
/// longer fits: the per-sample work of the input device callback. The
/// channel receives the longest prefix of `data` that fits in its free
/// space; the rest is dropped (an overrun), and nothing blocks.
pub fn push_samples(chan: &mut RingChannel, data: &Vec<i16>) -> (pushed: usize)
    requires
        ring_wf(*old(chan)),
    ensures
        ring_wf(*final(chan)),
        ring_capacity(*final(chan)) == ring_capacity(*old(chan)),
        pushed as int == (if data@.len() <= ring_capacity(*old(chan)) - ring_samples(*old(chan)).len() {
            data@.len() as int
        } else {
            ring_capacity(*old(chan)) - ring_samples(*old(chan)).len()
        }),
        ring_samples(*final(chan)) == ring_samples(*old(chan)) + data@.take(pushed as int),
        ring_samples(*final(chan)) == model_push_batch(
            ring_samples(*old(chan)),
            ring_capacity(*old(chan)),
            data@,
        ),
{
    let ghost orig = ring_samples(*chan);
    let ghost cap = ring_capacity(*chan);
    let ghost free0 = cap - orig.len();
    let mut i: usize = 0;
    let mut pushed: usize = 0;
    while i < data.len()
        invariant
            i <= data@.len(),
            pushed as int == (if i as int <= free0 { i as int } else { free0 }),
            ring_capacity(*chan) == cap,
            ring_wf(*chan),
            orig.len() + free0 == cap,
            ring_samples(*chan) == orig + data@.take(pushed as int),
        decreases data@.len() - i,
    {
        let ok = chan.push(data[i]);
        proof {
            if ok {
                assert(data@.take(pushed + 1 as int) =~= data@.take(pushed as int).push(data@[i as int]));
                assert(ring_samples(*chan) =~= orig + data@.take(pushed + 1 as int));
            }
        }
        if ok {
            pushed = pushed + 1;
        }
        i = i + 1;
    }
    proof {
        lemma_push_batch_prefix(orig, cap, data@);
    }
    pushed
}

/// Render one output buffer from the channel: the per-sample work of
/// the output device callback. Each of the `slots` output positions
/// takes the next buffered sample scaled by the volume; an empty
/// channel yields silence for the remaining slots (an underrun), and
/// with passthrough disabled every slot is silence while the buffered
/// samples are still consumed.
pub fn render_output(chan: &mut RingChannel, slots: usize, volume: &Volume, enabled: bool) -> (out: Vec<i16>)
    requires
        volume.wf(),
        ring_wf(*old(chan)),
    ensures
        ring_wf(*final(chan)),
        ring_capacity(*final(chan)) == ring_capacity(*old(chan)),
        out@.len() == slots,
        ring_samples(*final(chan)) == ring_samples(*old(chan)).skip(
            if slots as int <= ring_samples(*old(chan)).len() {
                slots as int
            } else {
                ring_samples(*old(chan)).len() as int
            },
        ),
        forall|i: int| 0 <= i < slots ==> (#[trigger] out@[i]) as int == (
            if enabled && i < ring_samples(*old(chan)).len() {
                scaled_sample(ring_samples(*old(chan))[i] as int, volume.spec_percent() as int)
            } else {
                0
            }
        ),
{
    let ghost orig = ring_samples(*chan);
    let ghost cap = ring_capacity(*chan);
    let mut out: Vec<i16> = Vec::new();
    let mut i: usize = 0;
    while i < slots
        invariant
            i <= slots,
            volume.wf(),
            out@.len() == i,
            ring_capacity(*chan) == cap,
            ring_wf(*chan),
            ring_samples(*chan) == orig.skip(if i as int <= orig.len() { i as int } else { orig.len() as int }),
            forall|j: int| 0 <= j < i ==> (#[trigger] out@[j]) as int == (
                if enabled && j < orig.len() {
                    scaled_sample(orig[j] as int, volume.spec_percent() as int)
                } else {
                    0
                }
            ),
        decreases slots - i,
    {
        match chan.pop() {
            Some(s) => {
                proof {
                    assert(i < orig.len());
                    assert(orig.skip(i as int)[0] == orig[i as int]);
                    assert(orig.skip(i as int).drop_first() =~= orig.skip(i + 1));
                }
                if enabled {
                    out.push(scale_sample(s, volume));
                } else {
                    out.push(0);
                }
            },
            None => {
                proof {
                    assert(orig.skip(if i as int <= orig.len() { i as int } else { orig.len() as int }).len() == 0);
                    assert(i >= orig.len());
                    assert(orig.skip(orig.len() as int) =~= orig.skip(if i + 1 <= orig.len() { i + 1 } else { orig.len() as int }));
                }
                out.push(0);
            },
        }
        i = i + 1;
    }
    out
}

/// Target latency of the passthrough channel, in milliseconds.
pub const DEFAULT_LATENCY_MS: u32 = 50;

/// Samples a channel must hold for a target latency: sample rate times
/// channel count times the latency in milliseconds, doubled for
/// headroom.
pub open spec fn spec_channel_capacity(rate: int, channels: int, latency_ms: int) -> int {
    rate * channels * latency_ms / 1000 * 2
}

/// Compute the channel capacity for a stream configuration.
pub fn channel_capacity(sample_rate: u32, channels: u16, latency_ms: u32) -> (cap: usize)
    requires
        sample_rate as int * channels as int * latency_ms as int <= u32::MAX as int,
    ensures
        cap as int == spec_channel_capacity(sample_rate as int, channels as int, latency_ms as int),
{
    proof {
        assert((sample_rate as u64) * (channels as u64) <= 0xFFFF_FFFF * 0xFFFF) by (nonlinear_arith)
            requires
                sample_rate as u64 <= 0xFFFF_FFFF,
                channels as u64 <= 0xFFFF,
        ;
    }
    let rate_channels: u64 = (sample_rate as u64) * (channels as u64);
    let product: u64 = rate_channels * (latency_ms as u64);
    let cap64: u64 = product / 1000 * 2;
    cap64 as usize
}

/// How a start request names a device.
#[derive(Debug, PartialEq, Eq, Structural, Clone, Copy)]
pub enum DeviceSelection {
    /// No name given: the platform's default device.
    SystemDefault,
    /// The device at this position of the enumerated list.
    Index(usize),
}

/// Why a passthrough session could not start.
#[derive(Debug, PartialEq, Eq, Structural, Clone, Copy)]
pub enum AudioError {
    /// A device was requested by name and the name is not in the
    /// enumerated list.
    DeviceNotFound,
    /// No acceptable stream configuration could be negotiated.
    FormatNegotiationFailed,
    /// The device refused to open or start its stream.
    StreamOpenFailed,
}

impl AudioError {
    /// A short description of the failure.
    pub fn describe(&self) -> (r: String)
        ensures
            (match self {
                AudioError::DeviceNotFound => r@ == "device not found"@,
                AudioError::FormatNegotiationFailed => r@ == "format negotiation failed"@,
                AudioError::StreamOpenFailed => r@ == "stream open failed"@,
            }),
    {
        match self {
            AudioError::DeviceNotFound => "device not found".to_owned(),
            AudioError::FormatNegotiationFailed => "format negotiation failed".to_owned(),
            AudioError::StreamOpenFailed => "stream open failed".to_owned(),
        }
    }
}

/// Resolve a requested device name against the enumerated device
/// list: no name selects the system default, a name selects the first
/// device bearing it, and an absent name is an error.
pub fn resolve_device(requested: &Option<String>, available: &Vec<String>) -> (r: Result<
    DeviceSelection,
    AudioError,
>)
    ensures
        (match requested {
            None => r == Ok::<DeviceSelection, AudioError>(DeviceSelection::SystemDefault),
            Some(name) => (match r {
                Ok(DeviceSelection::Index(i)) => i < available@.len() && available@[i as int]@ == name@
                    && (forall|j: int| 0 <= j < i ==> (#[trigger] available@[j])@ != name@),
                Ok(DeviceSelection::SystemDefault) => false,
                Err(e) => e == AudioError::DeviceNotFound
                    && (forall|j: int| 0 <= j < available@.len() ==> (#[trigger] available@[j])@ != name@),
            }),
        }),
{
    match requested {
        None => Ok(DeviceSelection::SystemDefault),
        Some(name) => {
            let mut i: usize = 0;
            while i < available.len()
                invariant
                    *requested == Some(*name),
                    i <= available@.len(),
                    forall|j: int| 0 <= j < i ==> (#[trigger] available@[j])@ != name@,
                decreases available@.len() - i,
            {
                if available[i] == *name {
                    return Ok(DeviceSelection::Index(i));
                }
                i = i + 1;
            }
            Err(AudioError::DeviceNotFound)
        },
    }
}

/// The audio passthrough controller: owns the session state consulted
/// by the device callbacks, and sizes and creates the channel that
/// binds one input stream to one output stream.
pub struct AudioCapture {
    is_active: bool,
    buffer_capacity: usize,
    volume: Volume,
    passthrough_enabled: bool,
}

impl AudioCapture {
    /// A passthrough session is running.
    pub closed spec fn spec_active(&self) -> bool {
        self.is_active
    }

    /// Capacity of the current session's channel; zero when inactive.
    pub closed spec fn spec_buffer_capacity(&self) -> usize {
        self.buffer_capacity
    }

    /// The shared output volume.
    pub closed spec fn spec_volume(&self) -> Volume {
        self.volume
    }

    /// Whether the output callback passes samples through or forces
    /// silence.
    pub closed spec fn spec_enabled(&self) -> bool {
        self.passthrough_enabled
    }

    /// The stored volume never leaves its range.
    pub open spec fn wf(&self) -> bool {
        self.spec_volume().wf()
    }

    /// An inactive controller at unity volume with passthrough on.
    pub fn new() -> (a: AudioCapture)
        ensures
            a.wf(),
            !a.spec_active(),
            a.spec_buffer_capacity() == 0,
            a.spec_volume().spec_percent() == 100,
            a.spec_enabled(),
    {
        AudioCapture {
            is_active: false,
            buffer_capacity: 0,
            volume: Volume::new(),
            passthrough_enabled: true,
        }
    }

    /// Map a 0..=200 volume percentage onto the shared volume;
    /// out-of-range requests are clamped, never rejected.
    pub fn set_volume(&mut self, requested: i32)
        requires
            old(self).wf(),
        ensures
            final(self).wf(),
            final(self).spec_volume().spec_percent() as int == clamp_percent(requested as int),
            final(self).spec_active() == old(self).spec_active(),
            final(self).spec_buffer_capacity() == old(self).spec_buffer_capacity(),
            final(self).spec_enabled() == old(self).spec_enabled(),
    {
        self.volume.set_percent(requested);
    }

    /// Switch the passthrough policy consulted by the output callback.
    pub fn set_audio_passthrough_enabled(&mut self, enabled: bool)
        requires
            old(self).wf(),
        ensures
            final(self).wf(),
            final(self).spec_enabled() == enabled,
            final(self).spec_active() == old(self).spec_active(),
            final(self).spec_buffer_capacity() == old(self).spec_buffer_capacity(),
            final(self).spec_volume() == old(self).spec_volume(),
    {
        self.passthrough_enabled = enabled;
    }

    /// A copy of the shared volume, for the output callback.
    pub fn volume_snapshot(&self) -> (v: Volume)
        ensures
            v == self.spec_volume(),
    {
        Volume { percent: self.volume.percent() }
    }

    /// The passthrough policy, for the output callback.
    pub fn passthrough_enabled(&self) -> (r: bool)
        ensures
            r == self.spec_enabled(),
    {
        self.passthrough_enabled
    }

    /// Whether a passthrough session is running.
    pub fn is_active(&self) -> (r: bool)
        ensures
            r == self.spec_active(),
    {
        self.is_active
    }

    /// Open a session for a negotiated stream configuration: size the
    /// channel from the configuration and the target latency, create
    /// it, and mark the controller active. The two ends of the
    /// returned channel go to the input and output callbacks.
    pub fn begin_passthrough(&mut self, sample_rate: u32, channels: u16, latency_ms: u32) -> (chan:
        RingChannel)
        requires
            old(self).wf(),
            sample_rate as int * channels as int * latency_ms as int <= u32::MAX as int,
            spec_channel_capacity(sample_rate as int, channels as int, latency_ms as int) >= 1,
        ensures
            final(self).wf(),
            final(self).spec_active(),
            final(self).spec_buffer_capacity() as int == spec_channel_capacity(
                sample_rate as int,
                channels as int,
                latency_ms as int,
            ),
            ring_capacity(chan) == final(self).spec_buffer_capacity() as nat,
            ring_samples(chan) == Seq::<i16>::empty(),
            ring_wf(chan),
            final(self).spec_volume() == old(self).spec_volume(),
            final(self).spec_enabled() == old(self).spec_enabled(),
    {
        let cap = channel_capacity(sample_rate, channels, latency_ms);
        let chan = RingChannel::with_capacity(cap);
        self.buffer_capacity = cap;
        self.is_active = true;
        chan
    }

    /// End the session: always returns to the inactive state with no
    /// capacity, whatever happened to the underlying streams, and is
    /// idempotent.
    pub fn stop_capture(&mut self)
        requires
            old(self).wf(),
        ensures
            final(self).wf(),
            !final(self).spec_active(),
            final(self).spec_buffer_capacity() == 0,
            final(self).spec_volume() == old(self).spec_volume(),
            final(self).spec_enabled() == old(self).spec_enabled(),
    {
        self.is_active = false;
        self.buffer_capacity = 0;
    }
}

/// A process-wide "play the test sound" request: set by the settings
/// dialog, consumed exactly once by the audio side.
pub struct TestSoundFlag {
    requested: bool,
}

impl TestSoundFlag {
    /// A request is pending.
    pub closed spec fn is_requested(&self) -> bool {
        self.requested
    }

    /// No request pending.
    pub fn new() -> (f: TestSoundFlag)
        ensures
            !f.is_requested(),
    {
        TestSoundFlag { requested: false }
    }

    /// Ask for the test sound.
    pub fn request(&mut self)
        ensures
            final(self).is_requested(),
    {
        self.requested = true;
    }

    /// Consume the request: reports whether one was pending and clears
    /// it, so each request is honoured once.
    pub fn should_play_test_sound(&mut self) -> (r: bool)
        ensures
            r == old(self).is_requested(),
            !final(self).is_requested(),
    {
        let r = self.requested;
        self.requested = false;
        r
    }
}

/// One push as the channel contract states it: appended when there is
/// room, dropped when the channel is full.
pub open spec fn model_push(contents: Seq<i16>, cap: nat, s: i16) -> Seq<i16> {
    if contents.len() < cap {
        contents.push(s)
    } else {
        contents
    }
}

/// A whole batch pushed one sample at a time, in order: the effect of
/// the input callback on the channel contents.
pub open spec fn model_push_batch(contents: Seq<i16>, cap: nat, batch: Seq<i16>) -> Seq<i16>
    decreases batch.len(),
{
    if batch.len() == 0 {
        contents
    } else {
        model_push_batch(model_push(contents, cap, batch[0]), cap, batch.drop_first())
    }
}

/// Sample-by-sample pushing buffers the longest prefix of the batch
/// that fits the free space, and nothing else: the batched form that
/// `push_samples` promises agrees with one push at a time.
pub proof fn lemma_push_batch_prefix(contents: Seq<i16>, cap: nat, batch: Seq<i16>)
    requires
        contents.len() <= cap,
    ensures
        model_push_batch(contents, cap, batch) == contents + batch.take(
            if batch.len() <= cap - contents.len() {
                batch.len() as int
            } else {
                cap - contents.len()
            },
        ),
    decreases batch.len(),
{
    if batch.len() == 0 {
        assert(model_push_batch(contents, cap, batch) =~= contents + batch.take(0));
    } else if contents.len() < cap {
        let rest = batch.drop_first();
        lemma_push_batch_prefix(contents.push(batch[0]), cap, rest);
        let k = (if rest.len() <= cap - contents.len() - 1 {
            rest.len() as int
        } else {
            cap - contents.len() - 1
        });
        assert(contents.push(batch[0]) + rest.take(k) =~= contents + batch.take(k + 1));
    } else {
        let rest = batch.drop_first();
        lemma_push_batch_prefix(contents, cap, rest);
        assert(contents + rest.take(0) =~= contents + batch.take(0));
    }
}

/// Pushing a batch of exactly the capacity into an empty channel
/// buffers the whole batch in order, and one push more is refused and
/// corrupts nothing: the contents after the extra push are the batch,
/// unchanged.
pub proof fn lemma_channel_fifo(batch: Seq<i16>, cap: nat, extra: i16)
    requires
        batch.len() == cap,
    ensures
        model_push_batch(Seq::<i16>::empty(), cap, batch) == batch,
        model_push(batch, cap, extra) == batch,
{
    lemma_push_batch_prefix(Seq::<i16>::empty(), cap, batch);
    assert(Seq::<i16>::empty() + batch.take(batch.len() as int) =~= batch);
}

/// Filling an empty channel with a batch that fits its capacity and
/// then rendering that many output slots at unity volume hands back
/// exactly the pushed samples, in capture order: the concatenation the
/// input side leaves behind is the batch itself, and the volume stage
/// at 100 percent is the identity on every slot.
pub proof fn lemma_passthrough_round_trip(samples: Seq<i16>, cap: nat)
    requires
        samples.len() <= cap,
    ensures
        Seq::<i16>::empty() + samples.take(samples.len() as int) == samples,
        forall|i: int| 0 <= i < samples.len() ==> scaled_sample((#[trigger] samples[i]) as int, 100) == samples[i] as int,
{
    assert(Seq::<i16>::empty() + samples.take(samples.len() as int) =~= samples);
    assert forall|i: int| 0 <= i < samples.len() implies scaled_sample((#[trigger] samples[i]) as int, 100) == samples[i] as int by {
        lemma_unit_volume(samples[i]);
    }
}

} // verus!
