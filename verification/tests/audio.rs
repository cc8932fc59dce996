//! The ring channel, volume handling and passthrough controller on
//! concrete values.

use capturecard_viewer::audio::{
    channel_capacity, push_samples, render_output, resolve_device, scale_sample, AudioCapture,
    AudioError, DeviceSelection, TestSoundFlag, Volume, DEFAULT_LATENCY_MS,
};
use capturecard_viewer::ring::RingChannel;

#[test]
fn fifo_round_trip_at_capacity() {
    // Push `capacity` samples, then pop `capacity` times: the original
    // sequence comes back in order.
    let mut chan = RingChannel::with_capacity(4);
    let samples: [i16; 4] = [10, -20, 30, -40];
    for s in samples {
        assert!(chan.push(s));
    }
    // The (capacity+1)th push fails and corrupts nothing.
    assert!(!chan.push(99));
    for s in samples {
        assert_eq!(chan.pop(), Some(s));
    }
    assert_eq!(chan.pop(), None);
}

#[test]
fn pop_on_empty_returns_none() {
    let mut chan = RingChannel::with_capacity(8);
    assert_eq!(chan.pop(), None);
    assert_eq!(chan.pop(), None);
    assert_eq!(chan.len(), 0);
}

#[test]
fn push_samples_drops_what_no_longer_fits() {
    let mut chan = RingChannel::with_capacity(4);
    let data = vec![1i16, 2, 3, 4, 5, 6];
    let pushed = push_samples(&mut chan, &data);
    assert_eq!(pushed, 4);
    assert_eq!(chan.len(), 4);
    for expect in [1i16, 2, 3, 4] {
        assert_eq!(chan.pop(), Some(expect));
    }
}

#[test]
fn render_output_scales_and_pads_with_silence() {
    let mut chan = RingChannel::with_capacity(8);
    let data = vec![100i16, -200, 300];
    push_samples(&mut chan, &data);
    let mut vol = Volume::new();
    vol.set_percent(50);
    let out = render_output(&mut chan, 5, &vol, true);
    // Three buffered samples at half volume, then silence.
    assert_eq!(out, vec![50i16, -100, 150, 0, 0]);
    assert_eq!(chan.len(), 0);
}

#[test]
fn render_output_disabled_emits_silence_but_consumes() {
    let mut chan = RingChannel::with_capacity(8);
    push_samples(&mut chan, &vec![100i16, 200]);
    let vol = Volume::new();
    let out = render_output(&mut chan, 2, &vol, false);
    assert_eq!(out, vec![0i16, 0]);
    assert_eq!(chan.len(), 0);
}

#[test]
fn render_output_keeps_unconsumed_tail() {
    let mut chan = RingChannel::with_capacity(8);
    push_samples(&mut chan, &vec![1i16, 2, 3, 4]);
    let vol = Volume::new();
    let out = render_output(&mut chan, 2, &vol, true);
    assert_eq!(out, vec![1i16, 2]);
    assert_eq!(chan.len(), 2);
    assert_eq!(chan.pop(), Some(3));
    assert_eq!(chan.pop(), Some(4));
}

#[test]
fn volume_clamps_at_both_ends() {
    let mut audio = AudioCapture::new();
    audio.set_volume(-50);
    assert_eq!(audio.volume_snapshot().percent(), 0); // multiplier 0.0
    audio.set_volume(300);
    assert_eq!(audio.volume_snapshot().percent(), 200); // multiplier 2.0
    audio.set_volume(100);
    assert_eq!(audio.volume_snapshot().percent(), 100); // multiplier 1.0
    assert_eq!(audio.volume_snapshot().percent() as f32 / 100.0, 1.0);
}

#[test]
fn unity_volume_is_exact() {
    let vol = Volume::new();
    for s in [0i16, 1, -1, 100, -100, 32767, -32768] {
        assert_eq!(scale_sample(s, &vol), s);
    }
}

#[test]
fn double_volume_saturates() {
    let mut vol = Volume::new();
    vol.set_percent(200);
    assert_eq!(scale_sample(100, &vol), 200);
    assert_eq!(scale_sample(-100, &vol), -200);
    assert_eq!(scale_sample(20000, &vol), 32767);
    assert_eq!(scale_sample(-20000, &vol), -32768);
}

#[test]
fn zero_volume_silences() {
    let mut vol = Volume::new();
    vol.set_percent(0);
    assert_eq!(scale_sample(32767, &vol), 0);
    assert_eq!(scale_sample(-32768, &vol), 0);
}

#[test]
fn channel_capacity_formula() {
    // 48000 Hz, 2 channels, 50 ms target latency, doubled.
    assert_eq!(channel_capacity(48000, 2, DEFAULT_LATENCY_MS), 9600);
    assert_eq!(channel_capacity(44100, 1, 50), 4410);
    assert_eq!(channel_capacity(48000, 2, 0), 0);
}

#[test]
fn passthrough_session_sizes_its_channel() {
    let mut audio = AudioCapture::new();
    let chan = audio.begin_passthrough(48000, 2, DEFAULT_LATENCY_MS);
    assert_eq!(chan.capacity(), 9600);
    assert_eq!(chan.len(), 0);
    audio.stop_capture();
    // stop is idempotent
    audio.stop_capture();
}

#[test]
fn resolve_device_by_name() {
    let names = vec!["USB Audio".to_string(), "Loopback".to_string()];
    assert_eq!(
        resolve_device(&None, &names),
        Ok(DeviceSelection::SystemDefault)
    );
    assert_eq!(
        resolve_device(&Some("Loopback".to_string()), &names),
        Ok(DeviceSelection::Index(1))
    );
    assert_eq!(
        resolve_device(&Some("Missing".to_string()), &names),
        Err(AudioError::DeviceNotFound)
    );
}

#[test]
fn resolve_device_prefers_first_match() {
    let names = vec!["A".to_string(), "B".to_string(), "B".to_string()];
    assert_eq!(
        resolve_device(&Some("B".to_string()), &names),
        Ok(DeviceSelection::Index(1))
    );
}

#[test]
fn error_descriptions() {
    assert_eq!(AudioError::DeviceNotFound.describe(), "device not found");
    assert_eq!(
        AudioError::FormatNegotiationFailed.describe(),
        "format negotiation failed"
    );
    assert_eq!(AudioError::StreamOpenFailed.describe(), "stream open failed");
}

#[test]
fn test_sound_request_is_consumed_once() {
    let mut flag = TestSoundFlag::new();
    assert!(!flag.should_play_test_sound());
    flag.request();
    assert!(flag.should_play_test_sound());
    assert!(!flag.should_play_test_sound());
}
