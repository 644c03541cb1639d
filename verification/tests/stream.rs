use soul_audio_desktop::stream::{skip_encoder_delay, FadeSpan, StreamStartEnvelope};
use std::collections::VecDeque;

#[test]
fn envelope_length_is_thirty_milliseconds() {
    let mut env = StreamStartEnvelope::new(48000, 2);
    // 48000 * 30 * 2 / 1000 = 2880 samples
    let span = env.next_span(10_000).unwrap();
    assert_eq!(
        span,
        FadeSpan {
            start: 0,
            count: 2880,
            duration: 2880,
            active: false
        }
    );
    assert!(env.is_completed());
    assert_eq!(env.next_span(10), None);
}

#[test]
fn envelope_spans_cover_the_fade_once() {
    let mut env = StreamStartEnvelope::new(44100, 1);
    // 1323 samples
    let a = env.next_span(1000).unwrap();
    assert_eq!((a.start, a.count, a.active), (0, 1000, true));
    let b = env.next_span(1000).unwrap();
    assert_eq!((b.start, b.count, b.active), (1000, 323, false));
    assert!(env.next_span(1000).is_none());
}

#[test]
fn envelope_of_zero_length_completes_at_once() {
    let mut env = StreamStartEnvelope::new(0, 2);
    let span = env.next_span(64).unwrap();
    assert_eq!((span.count, span.active), (0, false));
    assert!(env.is_completed());
}

#[test]
fn encoder_delay_is_skipped_then_samples_buffered() {
    let mut out: VecDeque<i32> = VecDeque::new();
    let skipped = skip_encoder_delay(vec![1, 2, 3, 4, 5], 3, 0, &mut out, 10);
    assert_eq!(skipped, 3);
    assert_eq!(out, VecDeque::from(vec![4, 5]));

    let skipped = skip_encoder_delay(vec![6, 7], 3, skipped, &mut out, 10);
    assert_eq!(skipped, 3);
    assert_eq!(out, VecDeque::from(vec![4, 5, 6, 7]));
}

#[test]
fn encoder_delay_buffer_drops_oldest_when_full() {
    let mut out: VecDeque<i32> = VecDeque::from(vec![0]);
    let skipped = skip_encoder_delay(vec![1, 2, 3, 4], 0, 0, &mut out, 3);
    assert_eq!(skipped, 0);
    assert_eq!(out, VecDeque::from(vec![2, 3, 4]));
}

#[test]
fn encoder_delay_partial_skip_across_calls() {
    let mut out: VecDeque<f32> = VecDeque::new();
    let skipped = skip_encoder_delay(vec![0.1, 0.2], 5, 0, &mut out, 8);
    assert_eq!(skipped, 2);
    assert!(out.is_empty());
    let skipped = skip_encoder_delay(vec![0.3, 0.4, 0.5, 0.6], 5, skipped, &mut out, 8);
    assert_eq!(skipped, 5);
    assert_eq!(out, VecDeque::from(vec![0.6f32]));
}

use soul_audio_desktop::exclusive::{
    BufferSize, SampleFormat, StreamSettings, SupportedBufferSize, SupportedConfig,
};
use soul_audio_desktop::stream::{callback_buffer_frames, get_stream_config, DefaultOutputConfig};

fn supported(channels: u16, min: u32, max: u32, f: SampleFormat, b: SupportedBufferSize) -> SupportedConfig {
    SupportedConfig {
        channels,
        min_sample_rate: min,
        max_sample_rate: max,
        buffer_size: b,
        sample_format: f,
    }
}

fn default_config() -> DefaultOutputConfig {
    DefaultOutputConfig {
        channels: 6,
        sample_rate: 48000,
        buffer_size: SupportedBufferSize::Unknown,
        sample_format: SampleFormat::I16,
    }
}

#[test]
fn stream_config_prefers_stereo_float_at_device_rate() {
    let configs = vec![
        supported(2, 8000, 192000, SampleFormat::I16, SupportedBufferSize::Unknown),
        supported(6, 8000, 192000, SampleFormat::F32, SupportedBufferSize::Unknown),
        supported(2, 8000, 192000, SampleFormat::F32, SupportedBufferSize::Range { min: 300, max: 600 }),
        supported(2, 96000, 192000, SampleFormat::F32, SupportedBufferSize::Unknown),
    ];
    let (settings, format) = get_stream_config(&Ok(default_config()), &configs).unwrap();
    assert_eq!(format, SampleFormat::F32);
    assert_eq!(
        settings,
        StreamSettings {
            channels: 2,
            sample_rate: 48000,
            buffer_size: BufferSize::Fixed(512)
        }
    );
}

#[test]
fn stream_config_takes_last_of_equally_ranked() {
    let configs = vec![
        supported(2, 8000, 192000, SampleFormat::I32, SupportedBufferSize::Range { min: 16, max: 4096 }),
        supported(2, 8000, 192000, SampleFormat::I32, SupportedBufferSize::Range { min: 3000, max: 3000 }),
    ];
    let (settings, format) = get_stream_config(&Ok(default_config()), &configs).unwrap();
    assert_eq!(format, SampleFormat::I32);
    assert_eq!(settings.buffer_size, BufferSize::Fixed(3000));
}

#[test]
fn stream_config_falls_back_to_first_fitting_then_default() {
    let configs = vec![
        supported(6, 96000, 96000, SampleFormat::F32, SupportedBufferSize::Unknown),
        supported(1, 44100, 48000, SampleFormat::I16, SupportedBufferSize::Range { min: 8, max: 10 }),
    ];
    let (settings, format) = get_stream_config(&Ok(default_config()), &configs).unwrap();
    assert_eq!(format, SampleFormat::I16);
    assert_eq!(settings.channels, 1);
    assert_eq!(settings.buffer_size, BufferSize::Fixed(16));

    let (settings, format) = get_stream_config(&Ok(default_config()), &vec![]).unwrap();
    assert_eq!(format, SampleFormat::I16);
    assert_eq!(
        settings,
        StreamSettings {
            channels: 6,
            sample_rate: 48000,
            buffer_size: BufferSize::Fixed(512)
        }
    );
    assert_eq!(
        get_stream_config(&Err("no default".to_string()), &vec![]),
        Err("no default".to_string())
    );
}

#[test]
fn callback_frames() {
    assert_eq!(callback_buffer_frames(BufferSize::Fixed(256), 1024, 2), 256);
    assert_eq!(callback_buffer_frames(BufferSize::Default, 1024, 2), 512);
}

use soul_audio_desktop::backend::AudioBackend;
use soul_audio_desktop::device::{DeviceProbe, HostProbe};
use soul_audio_desktop::stream::{choose_output, silent_output_name, OutputChoice};

fn named_probe(name: &str) -> DeviceProbe {
    DeviceProbe { name: Ok(name.to_string()), default_config: Ok((48000, 2)), sample_rate_range: None }
}

#[test]
fn no_default_device_runs_silently() {
    let h = Some(HostProbe { default_device: None, devices: Ok(vec![]) });
    assert!(matches!(choose_output(AudioBackend::Default, &h, &None), OutputChoice::Silent));
    assert_eq!(silent_output_name(), "Silent Mode (No Audio Devices)");
    let h = Some(HostProbe { default_device: Some(named_probe("A")), devices: Ok(vec![]) });
    assert!(matches!(choose_output(AudioBackend::Default, &h, &None), OutputChoice::Default));
}

#[test]
fn named_device_is_looked_up_and_missing_one_is_an_error() {
    let h = Some(HostProbe {
        default_device: None,
        devices: Ok(vec![named_probe("A"), named_probe("B")]),
    });
    assert!(matches!(
        choose_output(AudioBackend::Default, &h, &Some("B".to_string())),
        OutputChoice::Named(1)
    ));
    match choose_output(AudioBackend::Default, &h, &Some("Z".to_string())) {
        OutputChoice::DeviceError(m) => assert_eq!(m, "Audio device 'Z' not found"),
        other => panic!("unexpected {:?}", other),
    }
    assert!(matches!(
        choose_output(AudioBackend::Default, &None, &None),
        OutputChoice::DeviceNotFound
    ));
}
