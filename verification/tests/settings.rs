//! The persisted capture settings and their defaults.

use capturecard_viewer::settings::{default_passthrough_enabled, AudioSettings, VideoSettings};

#[test]
fn video_settings_default() {
    let v = VideoSettings::default();
    assert!(v.device_name.is_none());
    assert_eq!(v.resolution, Some((1280, 720)));
    assert_eq!(v.format.as_deref(), Some("YUY2"));
    assert_eq!(v.fps, Some(60));
}

#[test]
fn audio_settings_default() {
    let a = AudioSettings::default();
    assert!(a.input_device_name.is_none());
    assert!(a.output_device_name.is_none());
    assert_eq!(a.sample_rate, Some(48000));
    assert_eq!(a.channels, Some(2));
    assert!(a.passthrough_enabled);
}

#[test]
fn passthrough_defaults_on() {
    assert!(default_passthrough_enabled());
}
