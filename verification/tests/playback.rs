use soul_audio_desktop::backend::AudioBackend;
use soul_audio_desktop::device_manager::DeviceManager;
use soul_audio_desktop::playback::{
    begin_switch, cleanup_delay_ms, needs_source_reload, needs_switch_to_default,
    parse_lowercase_mode, plan_switch_completion, plan_switch_failure, switch_target_display, DeviceSwitchConfig,
    DeviceSwitchReason, DeviceSwitchState, ResamplingQuality, ResamplingSettings,
    SampleRateMode,
};
use std::time::Duration;

#[test]
fn playback_test_make_device_id() {
    let device_id = DeviceManager::make_device_id(AudioBackend::Default, "Speakers (Realtek Audio)");
    assert_eq!(device_id, "ALSA::Speakers (Realtek Audio)");
    assert!(device_id.contains("::"));

    let device_id3 = DeviceManager::make_device_id(AudioBackend::Default, "Speakers (Realtek Audio)");
    assert_eq!(device_id, device_id3);

    let device_id4 = DeviceManager::make_device_id(AudioBackend::Default, "Different Device");
    assert_ne!(device_id, device_id4);
}

#[test]
fn test_device_switch_state_idle_default() {
    let state = DeviceSwitchState::default();
    assert_eq!(state, DeviceSwitchState::Idle);
    assert!(!state.is_switching());
    assert!(state.can_start_switch());
    assert!(state.target_device().is_none());
}

#[test]
fn test_device_switch_state_switching() {
    let state = DeviceSwitchState::Switching {
        target_device: Some("Speaker".to_string()),
        target_backend: AudioBackend::Default,
        reason: DeviceSwitchReason::UserRequested,
        saved_position: Duration::from_secs(10),
        was_playing: true,
    };

    assert!(state.is_switching());
    assert!(!state.can_start_switch());
    assert_eq!(state.target_device(), Some("Speaker"));
}

#[test]
fn test_device_switch_state_recovering() {
    let state = DeviceSwitchState::Recovering {
        retry_count: 2,
        last_error: "Connection failed".to_string(),
        saved_position: Duration::from_secs(30),
    };

    assert!(state.is_switching());
    assert!(state.can_start_switch());
    assert!(state.target_device().is_none());
}

#[test]
fn test_device_switch_state_fading_out() {
    let state = DeviceSwitchState::FadingOut {
        target_device: Some("Headphones".to_string()),
        target_backend: AudioBackend::Default,
        reason: DeviceSwitchReason::DeviceDisconnected,
        samples_remaining: 1024,
    };

    assert!(state.is_switching());
    assert!(!state.can_start_switch());
    assert_eq!(state.target_device(), Some("Headphones"));
}

#[test]
fn test_device_switch_state_fading_in() {
    let state = DeviceSwitchState::FadingIn {
        device_name: "New Speaker".to_string(),
        samples_remaining: 512,
    };

    assert!(state.is_switching());
    assert!(!state.can_start_switch());
    assert!(state.target_device().is_none());
}

#[test]
fn test_device_switch_reason_display() {
    assert_eq!(DeviceSwitchReason::UserRequested.to_string(), "user_requested");
    assert_eq!(
        DeviceSwitchReason::DeviceDisconnected.to_string(),
        "device_disconnected"
    );
    assert_eq!(
        DeviceSwitchReason::DefaultDeviceChanged.to_string(),
        "default_device_changed"
    );
    assert_eq!(
        DeviceSwitchReason::SampleRateMismatch.to_string(),
        "sample_rate_mismatch"
    );
    assert_eq!(DeviceSwitchReason::ErrorRecovery.to_string(), "error_recovery");
}

#[test]
fn test_device_switch_config_default() {
    let config = DeviceSwitchConfig::default();

    assert_eq!(config.fadeout_ms, 50);
    assert_eq!(config.fadein_ms, 30);
    assert_eq!(config.max_retries, 3);
    assert_eq!(config.retry_delay_ms, 100);
    assert!(config.auto_fallback);
}

#[test]
fn test_device_switch_config_custom() {
    let config = DeviceSwitchConfig {
        fadeout_ms: 100,
        fadein_ms: 50,
        max_retries: 5,
        retry_delay_ms: 200,
        auto_fallback: false,
    };

    assert_eq!(config.fadeout_ms, 100);
    assert_eq!(config.fadein_ms, 50);
    assert_eq!(config.max_retries, 5);
    assert_eq!(config.retry_delay_ms, 200);
    assert!(!config.auto_fallback);
}

#[test]
fn switch_begins_from_idle_and_is_refused_while_switching() {
    let idle = DeviceSwitchState::Idle;
    let state = begin_switch(
        &idle,
        AudioBackend::Default,
        Some("DAC".to_string()),
        DeviceSwitchReason::UserRequested,
        Duration::from_secs(12),
        true,
    )
    .unwrap();
    assert_eq!(
        state,
        DeviceSwitchState::Switching {
            target_device: Some("DAC".to_string()),
            target_backend: AudioBackend::Default,
            reason: DeviceSwitchReason::UserRequested,
            saved_position: Duration::from_secs(12),
            was_playing: true,
        }
    );
    let refused = begin_switch(
        &state,
        AudioBackend::Default,
        None,
        DeviceSwitchReason::ErrorRecovery,
        Duration::ZERO,
        false,
    );
    assert_eq!(refused.unwrap_err(), "Device switch already in progress");
}

#[test]
fn switch_failure_plans_fallback_only_for_named_devices() {
    let config = DeviceSwitchConfig::default();
    let plan = plan_switch_failure(
        &config,
        &Some("DAC".to_string()),
        "boom".to_string(),
        Duration::from_secs(3),
    );
    assert!(plan.retry_on_default);
    assert!(plan.fallback_attempted);
    assert_eq!(
        plan.state,
        DeviceSwitchState::Recovering {
            retry_count: 0,
            last_error: "boom".to_string(),
            saved_position: Duration::from_secs(3)
        }
    );
    let plan = plan_switch_failure(&config, &None, "boom".to_string(), Duration::ZERO);
    assert!(!plan.retry_on_default);
    assert!(plan.state.can_start_switch());
}

#[test]
fn switch_helpers() {
    assert_eq!(switch_target_display(&None), "default");
    assert_eq!(switch_target_display(&Some("DAC".to_string())), "DAC");
    assert_eq!(cleanup_delay_ms(AudioBackend::Default), 50);
    assert!(needs_source_reload(44100, 48000));
    assert!(!needs_source_reload(48000, 48000));
    assert!(needs_switch_to_default("HDMI", "Speakers"));
    assert!(!needs_switch_to_default("Speakers", "Speakers"));
}

#[test]
fn sample_rate_mode_parsing() {
    assert_eq!(SampleRateMode::from_str("Match_Device"), Some(SampleRateMode::MatchDevice));
    assert_eq!(SampleRateMode::from_str("auto"), Some(SampleRateMode::MatchDevice));
    assert_eq!(SampleRateMode::from_str("TRACK"), Some(SampleRateMode::MatchTrack));
    assert_eq!(SampleRateMode::from_str("bitperfect"), Some(SampleRateMode::Passthrough));
    assert_eq!(SampleRateMode::from_str("fixed:96000"), Some(SampleRateMode::Fixed(96000)));
    assert_eq!(SampleRateMode::from_str("fixed:fixed:48000"), Some(SampleRateMode::Fixed(48000)));
    assert_eq!(SampleRateMode::from_str("44100"), Some(SampleRateMode::Fixed(44100)));
    assert_eq!(SampleRateMode::from_str("+44100"), Some(SampleRateMode::Fixed(44100)));
    assert_eq!(SampleRateMode::from_str("fixed:"), None);
    assert_eq!(SampleRateMode::from_str("fast"), None);
    assert_eq!(SampleRateMode::from_str("FIXED:96000"), Some(SampleRateMode::Fixed(96000)));
    for m in [SampleRateMode::MatchDevice, SampleRateMode::MatchTrack, SampleRateMode::Passthrough] {
        assert_eq!(SampleRateMode::from_str(m.as_str()), Some(m));
    }
    assert_eq!(SampleRateMode::from_str("99999999999"), None);
    assert_eq!(parse_lowercase_mode("Native"), None);
    assert_eq!(parse_lowercase_mode("native"), Some(SampleRateMode::Passthrough));
}

#[test]
fn sample_rate_mode_text_and_exclusivity() {
    assert_eq!(SampleRateMode::MatchDevice.as_str(), "match_device");
    assert_eq!(SampleRateMode::MatchTrack.as_str(), "match_track");
    assert_eq!(SampleRateMode::Passthrough.as_str(), "passthrough");
    assert_eq!(SampleRateMode::Fixed(48000).as_str(), "fixed");
    assert_eq!(SampleRateMode::default(), SampleRateMode::MatchDevice);
    assert!(SampleRateMode::MatchTrack.requires_exclusive());
    assert!(SampleRateMode::Passthrough.requires_exclusive());
    assert!(!SampleRateMode::MatchDevice.requires_exclusive());
    assert!(!SampleRateMode::Fixed(44100).requires_exclusive());
    for m in [
        SampleRateMode::MatchDevice,
        SampleRateMode::MatchTrack,
        SampleRateMode::Passthrough,
    ] {
        assert_eq!(SampleRateMode::from_str(m.as_str()), Some(m));
    }
}

#[test]
fn sample_rate_mode_resolution() {
    let rates: [u32; 3] = [44100, 48000, 96000];
    assert_eq!(SampleRateMode::MatchDevice.resolve_rate(44100, 48000, None), (48000, true));
    assert_eq!(SampleRateMode::MatchDevice.resolve_rate(48000, 48000, None), (48000, false));
    assert_eq!(
        SampleRateMode::MatchTrack.resolve_rate(96000, 48000, Some(&rates[..])),
        (96000, false)
    );
    assert_eq!(
        SampleRateMode::MatchTrack.resolve_rate(88200, 48000, Some(&rates[..])),
        (48000, true)
    );
    assert_eq!(SampleRateMode::MatchTrack.resolve_rate(88200, 48000, None), (48000, true));
    assert_eq!(SampleRateMode::Passthrough.resolve_rate(88200, 48000, None), (88200, false));
    assert_eq!(SampleRateMode::Fixed(96000).resolve_rate(44100, 48000, None), (96000, true));
    assert_eq!(SampleRateMode::Fixed(44100).resolve_rate(44100, 48000, None), (44100, false));
}

#[test]
fn resampling_quality_parameters() {
    assert_eq!(ResamplingQuality::default(), ResamplingQuality::High);
    assert_eq!(ResamplingQuality::Fast.sinc_len(), 64);
    assert_eq!(ResamplingQuality::Balanced.sinc_len(), 128);
    assert_eq!(ResamplingQuality::High.sinc_len(), 256);
    assert_eq!(ResamplingQuality::Maximum.sinc_len(), 512);
    assert_eq!(ResamplingQuality::Fast.oversampling_factor(), 128);
    assert_eq!(ResamplingQuality::Balanced.oversampling_factor(), 256);
    assert_eq!(ResamplingQuality::High.oversampling_factor(), 512);
    assert_eq!(ResamplingQuality::Maximum.oversampling_factor(), 1024);
}

#[test]
fn resampling_settings_defaults_and_presets() {
    let mut s = ResamplingSettings::default();
    assert_eq!(s.quality, "high");
    assert_eq!(s.sample_rate_mode, SampleRateMode::MatchDevice);
    assert_eq!(s.target_rate, 0);
    assert_eq!(s.backend, "auto");
    assert_eq!(s.sinc_len(), 256);
    assert_eq!(s.oversampling_factor(), 256);
    s.quality = "fast".to_string();
    assert_eq!((s.sinc_len(), s.oversampling_factor()), (64, 128));
    s.quality = "maximum".to_string();
    assert_eq!((s.sinc_len(), s.oversampling_factor()), (512, 512));
    s.quality = "weird".to_string();
    assert_eq!((s.sinc_len(), s.oversampling_factor()), (256, 256));
}

#[test]
fn resampling_settings_validation() {
    let mut s = ResamplingSettings::default();
    assert_eq!(s.set_quality("balanced"), Ok(()));
    assert_eq!(s.quality, "balanced");
    assert_eq!(
        s.set_quality("ultra"),
        Err("Invalid quality 'ultra'. Must be one of: fast, balanced, high, maximum".to_string())
    );
    assert_eq!(s.quality, "balanced");

    assert_eq!(s.set_target_rate(96000), Ok(()));
    assert_eq!(s.target_rate, 96000);
    assert_eq!(s.set_target_rate(0), Ok(()));
    assert_eq!(
        s.set_target_rate(500),
        Err("Invalid target rate 500. Must be 0 (auto) or between 8000 and 384000 Hz".to_string())
    );
    assert_eq!(s.target_rate, 0);

    assert_eq!(s.set_backend("rubato"), Ok(()));
    assert_eq!(s.backend, "rubato");
    assert_eq!(
        s.set_backend("r8brain"),
        Err("r8brain backend is not available in this build. Use 'auto' or 'rubato' instead."
            .to_string())
    );
    assert_eq!(
        s.set_backend("sox"),
        Err("Invalid backend 'sox'. Must be one of: auto, rubato, r8brain".to_string())
    );
    assert_eq!(s.backend, "rubato");
}

#[test]
fn switch_completion_reloads_on_rate_change() {
    let p = plan_switch_completion(44100, 48000, true, &Duration::from_secs(3), true, "DAC".to_string());
    assert_eq!(p.rate_change, Some((44100, 48000)));
    assert!(p.reload_source);
    assert!(p.restore_position);
    assert!(p.resume);
    assert_eq!(p.state, DeviceSwitchState::Idle);
    assert_eq!(p.completed_device, "DAC");
    assert_eq!(p.completed_rate, 48000);
}

#[test]
fn switch_completion_without_rate_change_seeks_the_manager() {
    let p = plan_switch_completion(48000, 48000, true, &Duration::from_millis(10), false, "A".to_string());
    assert_eq!(p.rate_change, None);
    assert!(!p.reload_source);
    assert!(p.restore_position);
    assert!(!p.resume);
    let at_start = plan_switch_completion(48000, 48000, true, &Duration::ZERO, false, "A".to_string());
    assert!(!at_start.restore_position);
    let no_track = plan_switch_completion(44100, 48000, false, &Duration::from_secs(1), true, "A".to_string());
    assert!(!no_track.reload_source);
    assert!(!no_track.restore_position);
}

#[test]
fn failed_switch_settles_back_in_idle() {
    let config = DeviceSwitchConfig::default();
    let plan = plan_switch_failure(&config, &Some("USB".to_string()), "gone".to_string(), Duration::ZERO);
    assert_eq!(plan.settled_state, DeviceSwitchState::Idle);
    assert!(plan.settled_state.can_start_switch());
    assert!(plan.retry_on_default);
}
