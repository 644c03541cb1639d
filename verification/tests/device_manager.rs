use soul_audio_desktop::backend::AudioBackend;
use soul_audio_desktop::device_manager::DeviceManager;

#[test]
fn device_manager_test_make_device_id() {
    let backend = AudioBackend::Default;
    let backend_name = backend.name();

    let id = DeviceManager::make_device_id(backend, "Speakers");
    assert_eq!(id, format!("{}::Speakers", backend_name));

    let id = DeviceManager::make_device_id(backend, "hw:0,0");
    assert_eq!(id, format!("{}::hw:0,0", backend_name));
}

#[test]
fn test_device_manager_initial_state() {
    let manager = DeviceManager::new();
    assert_eq!(manager.get_current_device(), "(None)");
    assert_eq!(manager.get_current_backend(), AudioBackend::Default);
    assert_eq!(manager.get_current_device_id(), None);
}

#[test]
fn test_update_device() {
    let mut manager = DeviceManager::new();

    let backend = AudioBackend::Default;
    let backend_name = backend.name();
    manager.update_device(backend, "Test Speaker", false);
    assert_eq!(manager.get_current_device(), "Test Speaker");
    assert_eq!(manager.get_current_backend(), backend);
    assert_eq!(
        manager.get_current_device_id(),
        Some(format!("{}::Test Speaker", backend_name))
    );

    manager.update_device(AudioBackend::Default, "(Silent)", true);
    assert_eq!(manager.get_current_device(), "(Silent)");
    assert_eq!(manager.get_current_device_id(), None);
}

#[test]
fn test_is_current_device() {
    let mut manager = DeviceManager::new();
    let backend = AudioBackend::Default;
    let backend_name = backend.name();
    manager.update_device(backend, "My Speakers", false);

    assert!(manager.is_current_device("My Speakers"));
    assert!(manager.is_current_device(&format!("{}::My Speakers", backend_name)));
    assert!(manager.is_current_device("Some prefix My Speakers some suffix"));
    assert!(!manager.is_current_device("Different Device"));
}

#[test]
fn device_id_uses_alsa_name_on_linux() {
    assert_eq!(
        DeviceManager::make_device_id(AudioBackend::Default, "Speakers (Realtek Audio)"),
        "ALSA::Speakers (Realtek Audio)"
    );
}

#[test]
fn stored_id_containing_the_query_matches() {
    let mut manager = DeviceManager::new();
    manager.update_device(AudioBackend::Default, "USB DAC", false);
    // "ALSA::USB" is contained in the stored id "ALSA::USB DAC"
    assert!(manager.is_current_device("ALSA::USB"));
    // unrelated text matches nothing
    assert!(!manager.is_current_device("HDMI"));
}

#[test]
fn silent_mode_only_matches_by_name() {
    let mut manager = DeviceManager::new();
    manager.update_device(AudioBackend::Default, "(Silent)", true);
    assert!(manager.is_current_device("(Silent)"));
    assert!(!manager.is_current_device("ALSA::"));
}
