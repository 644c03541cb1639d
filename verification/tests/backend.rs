use soul_audio_desktop::backend::{
    get_backend_info, list_available_backends, AudioBackend, BackendError, BackendProbe,
};

#[test]
fn test_backend_name() {
    let backend = AudioBackend::Default;
    let name = backend.name();
    assert!(!name.is_empty(), "Backend name should not be empty");
}

#[test]
fn test_backend_description() {
    let backend = AudioBackend::Default;
    let desc = backend.description();
    assert!(!desc.is_empty(), "Backend description should not be empty");
}

#[test]
fn default_backend_is_alsa() {
    assert_eq!(AudioBackend::Default.name(), "ALSA");
    assert_eq!(
        AudioBackend::Default.description(),
        "Advanced Linux Sound Architecture (direct hardware access)"
    );
    assert_eq!(list_available_backends(), vec![AudioBackend::Default]);
}

#[test]
fn backend_info_reports_probe() {
    let info = get_backend_info(BackendProbe {
        available: true,
        output_device_count: Some(3),
    });
    assert_eq!(info.len(), 1);
    assert_eq!(info[0].backend, AudioBackend::Default);
    assert_eq!(info[0].name, "ALSA");
    assert!(info[0].available);
    assert!(info[0].is_default);
    assert_eq!(info[0].device_count, 3);

    let info = get_backend_info(BackendProbe {
        available: true,
        output_device_count: None,
    });
    assert_eq!(info[0].device_count, 0);

    let info = get_backend_info(BackendProbe {
        available: false,
        output_device_count: Some(3),
    });
    assert!(!info[0].available);
    assert_eq!(info[0].device_count, 0);
}

#[test]
fn backend_error_messages() {
    assert_eq!(
        BackendError::BackendUnavailable("JACK").to_string(),
        "Audio backend 'JACK' is not available on this system"
    );
    assert_eq!(
        BackendError::NoBackendsAvailable.to_string(),
        "No audio backends available"
    );
    assert_eq!(BackendError::CpalError("x".to_string()).to_string(), "CPAL error: x");
    assert_eq!(
        BackendError::EnumerationTimeout(10).to_string(),
        "Backend enumeration timed out after 10 seconds. The audio service may be hung. Try restarting the audio service or rebooting your system."
    );
    assert_eq!(
        BackendError::TaskJoinError("panic".to_string()).to_string(),
        "Failed to join backend enumeration task: panic"
    );
}
