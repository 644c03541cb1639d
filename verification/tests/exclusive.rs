use soul_audio_desktop::backend::AudioBackend;
use soul_audio_desktop::exclusive::{
    find_best_config, BufferSize, ConfigSelectionError, ExclusiveConfig, SampleFormat,
    StreamSettings, SupportedBitDepth, SupportedBufferSize, SupportedConfig,
};

fn cfg(min: u32, max: u32, format: SampleFormat, buffer: SupportedBufferSize) -> SupportedConfig {
    SupportedConfig {
        channels: 2,
        min_sample_rate: min,
        max_sample_rate: max,
        buffer_size: buffer,
        sample_format: format,
    }
}

#[test]
fn test_exclusive_config_defaults() {
    let config = ExclusiveConfig::default();
    assert_eq!(config.sample_rate, 0);
    assert_eq!(config.bit_depth, SupportedBitDepth::Float32);
    assert!(config.exclusive_mode);
    assert!(config.device_name.is_none());
}

#[test]
fn test_exclusive_config_presets() {
    let bp16 = ExclusiveConfig::bit_perfect_16();
    assert_eq!(bp16.bit_depth, SupportedBitDepth::Int16);
    assert!(bp16.exclusive_mode);

    let bp24 = ExclusiveConfig::bit_perfect_24();
    assert_eq!(bp24.bit_depth, SupportedBitDepth::Int24);

    let low_lat = ExclusiveConfig::low_latency();
    assert_eq!(low_lat.buffer_frames, Some(128));
}

#[test]
fn test_exclusive_config_builder() {
    let config = ExclusiveConfig::default()
        .with_sample_rate(96000)
        .with_buffer_frames(256)
        .with_device("Test Device");

    assert_eq!(config.sample_rate, 96000);
    assert_eq!(config.buffer_frames, Some(256));
    assert_eq!(config.device_name, Some("Test Device".to_string()));
}

#[test]
fn other_presets_and_backend_builder() {
    assert_eq!(ExclusiveConfig::bit_perfect_32().bit_depth, SupportedBitDepth::Int32);
    assert_eq!(ExclusiveConfig::ultra_low_latency().buffer_frames, Some(64));
    let c = ExclusiveConfig::default().with_backend(AudioBackend::Default);
    assert_eq!(c.backend, AudioBackend::Default);
    assert_eq!(c.buffer_frames, None);
}

#[test]
fn best_config_prefers_exact_format_at_44100() {
    let configs = vec![
        cfg(8000, 192000, SampleFormat::F32, SupportedBufferSize::Unknown),
        cfg(8000, 192000, SampleFormat::I16, SupportedBufferSize::Unknown),
    ];
    let config = ExclusiveConfig::bit_perfect_16();
    let (settings, format, buffer) = find_best_config(&Ok(configs), &config).unwrap();
    assert_eq!(format, SampleFormat::I16);
    assert_eq!(settings.sample_rate, 44100);
    assert_eq!(buffer, BufferSize::Default);
}

#[test]
fn best_config_falls_back_to_first_f32() {
    let configs = vec![
        cfg(48000, 48000, SampleFormat::I16, SupportedBufferSize::Unknown),
        cfg(48000, 48000, SampleFormat::F32, SupportedBufferSize::Range { min: 64, max: 4096 }),
    ];
    // 24-bit asks for I32, which the device does not offer
    let config = ExclusiveConfig::bit_perfect_24().with_buffer_frames(0);
    let (settings, format, buffer) = find_best_config(&Ok(configs), &config).unwrap();
    assert_eq!(format, SampleFormat::F32);
    assert_eq!(
        settings,
        StreamSettings {
            channels: 2,
            sample_rate: 48000,
            buffer_size: BufferSize::Fixed(1024)
        }
    );
    assert_eq!(buffer, BufferSize::Fixed(1024));
}

#[test]
fn best_config_clamps_buffer_and_uses_min_rate() {
    let configs = vec![cfg(
        88200,
        96000,
        SampleFormat::F32,
        SupportedBufferSize::Range { min: 256, max: 512 },
    )];
    let config = ExclusiveConfig::default().with_buffer_frames(64);
    let (settings, _, buffer) = find_best_config(&Ok(configs), &config).unwrap();
    assert_eq!(settings.sample_rate, 88200);
    assert_eq!(buffer, BufferSize::Fixed(256));
}

#[test]
fn best_config_requested_rate_must_be_in_range() {
    let configs = vec![cfg(44100, 48000, SampleFormat::F32, SupportedBufferSize::Unknown)];
    let config = ExclusiveConfig::default().with_sample_rate(96000);
    let r = find_best_config(&Ok(configs), &config);
    assert_eq!(r.unwrap_err(), ConfigSelectionError::NoCompatibleConfig);
    assert_eq!(
        ConfigSelectionError::NoCompatibleConfig.to_string(),
        "No compatible config found"
    );
}

#[test]
fn best_config_query_failure_is_passed_on() {
    let config = ExclusiveConfig::default();
    let r = find_best_config(&Err("device gone".to_string()), &config);
    assert_eq!(
        r.unwrap_err(),
        ConfigSelectionError::QueryFailed("device gone".to_string())
    );
}
