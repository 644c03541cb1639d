use soul_audio_desktop::device_monitor::{
    create_async_device_monitor, default_device_change, detect_device_changes,
    detect_changes_over_polls, device_id_available, enumerate_sinks, find_default_device, mark_fallback_default, pipewire_sink_info,
    watcher_added_events, watcher_updated_events, AsyncDeviceInfo, CpalFallbackMonitor,
    DeviceEvent, DeviceMonitorError, LinuxDeviceMonitor, ListedDevice, MacOSDeviceMonitor,
    NodeProps, SinkRegistry, WindowsDeviceMonitor,
};

fn info(id: &str, is_default: bool) -> AsyncDeviceInfo {
    AsyncDeviceInfo {
        id: id.to_string(),
        name: format!("{} name", id),
        is_default,
        is_available: true,
        sample_rate: Some(48000),
        channels: Some(2),
    }
}

fn listed(id: &str, name: &str) -> ListedDevice {
    ListedDevice {
        id: id.to_string(),
        name: name.to_string(),
    }
}

fn sink_props(description: Option<&str>, node_name: Option<&str>) -> NodeProps {
    NodeProps {
        media_class: Some("Audio/Sink".to_string()),
        node_description: description.map(|s| s.to_string()),
        node_name: node_name.map(|s| s.to_string()),
        audio_rate: None,
        audio_channels: None,
    }
}

#[test]
fn test_device_event_equality() {
    let event1 = DeviceEvent::DeviceAdded {
        id: "dev1".to_string(),
        name: "Speaker".to_string(),
    };
    let event2 = DeviceEvent::DeviceAdded {
        id: "dev1".to_string(),
        name: "Speaker".to_string(),
    };
    assert_eq!(event1, event2);
}

#[test]
fn test_device_info_creation() {
    let info = AsyncDeviceInfo {
        id: "test".to_string(),
        name: "Test Device".to_string(),
        is_default: true,
        is_available: true,
        sample_rate: Some(48000),
        channels: Some(2),
    };
    assert_eq!(info.id, "test");
    assert!(info.is_default);
}

#[test]
fn test_device_event_variants() {
    let added = DeviceEvent::DeviceAdded {
        id: "1".to_string(),
        name: "Speaker".to_string(),
    };
    let removed = DeviceEvent::DeviceRemoved {
        id: "1".to_string(),
    };
    let changed = DeviceEvent::DefaultDeviceChanged {
        id: "2".to_string(),
        name: "Headphones".to_string(),
    };
    let property = DeviceEvent::DevicePropertyChanged {
        id: "3".to_string(),
        property: "sample_rate".to_string(),
    };

    assert!(matches!(added, DeviceEvent::DeviceAdded { .. }));
    assert!(matches!(removed, DeviceEvent::DeviceRemoved { .. }));
    assert!(matches!(changed, DeviceEvent::DefaultDeviceChanged { .. }));
    assert!(matches!(
        property,
        DeviceEvent::DevicePropertyChanged { .. }
    ));
}

#[test]
fn test_device_info_clone() {
    let info1 = AsyncDeviceInfo {
        id: "test".to_string(),
        name: "Test Device".to_string(),
        is_default: true,
        is_available: true,
        sample_rate: Some(48000),
        channels: Some(2),
    };

    let info2 = info1.clone();
    assert_eq!(info1.id, info2.id);
    assert_eq!(info1.name, info2.name);
    assert_eq!(info1.is_default, info2.is_default);
}

#[test]
fn test_device_monitor_error_display() {
    let errors = vec![
        DeviceMonitorError::PlatformUnavailable("test".to_string()),
        DeviceMonitorError::EnumerationFailed("test".to_string()),
        DeviceMonitorError::DeviceNotFound("test".to_string()),
        DeviceMonitorError::PermissionDenied("test".to_string()),
        DeviceMonitorError::Internal("test".to_string()),
    ];

    for error in errors {
        let msg = error.to_string();
        assert!(!msg.is_empty(), "Error should have a display message");
    }
}

#[test]
fn test_feature_flag_creates_correct_implementation() {
    let monitor = create_async_device_monitor();
    let platform = monitor.platform_name();
    assert!(
        platform.contains("Fallback"),
        "Should use CPAL fallback without feature or on unsupported platform"
    );
}

#[test]
fn monitor_error_messages_are_exact() {
    assert_eq!(
        DeviceMonitorError::PlatformUnavailable("x".to_string()).to_string(),
        "Platform unavailable: x"
    );
    assert_eq!(
        DeviceMonitorError::EnumerationFailed("x".to_string()).to_string(),
        "Enumeration failed: x"
    );
    assert_eq!(
        DeviceMonitorError::DeviceNotFound("x".to_string()).to_string(),
        "Device not found: x"
    );
    assert_eq!(
        DeviceMonitorError::PermissionDenied("x".to_string()).to_string(),
        "Permission denied: x"
    );
    assert_eq!(
        DeviceMonitorError::Internal("x".to_string()).to_string(),
        "Internal error: x"
    );
}

#[test]
fn monitor_platform_names() {
    assert_eq!(
        CpalFallbackMonitor::new().platform_name(),
        "Linux (CPAL Fallback - Native PipeWire Async Planned)"
    );
    let linux = LinuxDeviceMonitor::new();
    assert!(linux.platform_name().contains("PipeWire"));
    assert!(linux.platform_name().contains("Native"));
    let mac = MacOSDeviceMonitor::new();
    assert!(mac.platform_name().contains("CoreAudio"));
    assert!(mac.platform_name().contains("Native"));
    assert_eq!(
        WindowsDeviceMonitor::new().platform_name(),
        "Windows (WinRT Native Async)"
    );
}

#[test]
fn detect_changes_reports_added_then_removed() {
    let previous = vec![listed("a", "A"), listed("b", "B")];
    let current = vec![listed("b", "B"), listed("c", "C"), listed("d", "D")];
    let events = detect_device_changes(&previous, &current);
    assert_eq!(
        events,
        vec![
            DeviceEvent::DeviceAdded {
                id: "c".to_string(),
                name: "C".to_string()
            },
            DeviceEvent::DeviceAdded {
                id: "d".to_string(),
                name: "D".to_string()
            },
            DeviceEvent::DeviceRemoved {
                id: "a".to_string()
            },
        ]
    );
}

#[test]
fn detect_changes_of_unchanged_poll_is_empty() {
    let devices = vec![listed("a", "A"), listed("b", "B")];
    assert!(detect_device_changes(&devices, &devices).is_empty());
}

#[test]
fn detect_changes_matches_by_name_not_id() {
    // the same name under a new id is not a change
    let previous = vec![listed("1", "Speaker")];
    let current = vec![listed("2", "Speaker")];
    assert!(detect_device_changes(&previous, &current).is_empty());
}

#[test]
fn registry_announce_and_remove_sink() {
    let mut registry = SinkRegistry::new();
    let events = registry.on_global(42, &sink_props(Some("Built-in Audio"), Some("alsa_output")));
    assert_eq!(
        events,
        vec![DeviceEvent::DeviceAdded {
            id: "42".to_string(),
            name: "Built-in Audio".to_string()
        }]
    );
    let events = registry.on_global_remove(42);
    assert_eq!(
        events,
        vec![DeviceEvent::DeviceRemoved {
            id: "42".to_string()
        }]
    );
    // a second removal is silent
    assert!(registry.on_global_remove(42).is_empty());
}

#[test]
fn registry_default_marker_announces_default() {
    let mut registry = SinkRegistry::new();
    let events = registry.on_global(7, &sink_props(None, Some("@DEFAULT_SINK@")));
    assert_eq!(
        events,
        vec![
            DeviceEvent::DeviceAdded {
                id: "7".to_string(),
                name: "@DEFAULT_SINK@".to_string()
            },
            DeviceEvent::DefaultDeviceChanged {
                id: "7".to_string(),
                name: "@DEFAULT_SINK@".to_string()
            },
        ]
    );
}

#[test]
fn registry_ignores_non_sinks_and_unknown_ids() {
    let mut registry = SinkRegistry::new();
    let props = NodeProps {
        media_class: Some("Audio/Source".to_string()),
        node_description: Some("Mic".to_string()),
        node_name: None,
        audio_rate: None,
        audio_channels: None,
    };
    assert!(registry.on_global(3, &props).is_empty());
    assert!(registry.on_global_remove(3).is_empty());
    let unnamed = sink_props(None, None);
    let events = registry.on_global(9, &unnamed);
    assert_eq!(
        events,
        vec![DeviceEvent::DeviceAdded {
            id: "9".to_string(),
            name: "Unknown Device".to_string()
        }]
    );
}

#[test]
fn pipewire_sink_info_parses_rate_and_channels() {
    let mut props = sink_props(Some("USB DAC"), Some("alsa_output.usb"));
    props.audio_rate = Some("96000".to_string());
    props.audio_channels = Some("2".to_string());
    let info = pipewire_sink_info(5, &props, &None).unwrap();
    assert_eq!(info.id, "5");
    assert_eq!(info.name, "USB DAC");
    assert!(!info.is_default);
    assert!(info.is_available);
    assert_eq!(info.sample_rate, Some(96000));
    assert_eq!(info.channels, Some(2));

    props.audio_channels = Some("70000".to_string());
    props.audio_rate = Some("fast".to_string());
    let info = pipewire_sink_info(5, &props, &Some("alsa_output.usb".to_string())).unwrap();
    assert_eq!(info.channels, None);
    assert_eq!(info.sample_rate, None);
    assert!(info.is_default);

    props.media_class = None;
    assert!(pipewire_sink_info(5, &props, &None).is_none());
}

#[test]
fn find_default_device_picks_first_default() {
    let devices = vec![info("a", false), info("b", true), info("c", true)];
    let d = find_default_device(devices).unwrap();
    assert_eq!(d.id, "b");

    let none = vec![info("a", false)];
    match find_default_device(none) {
        Err(DeviceMonitorError::DeviceNotFound(m)) => assert_eq!(m, "No default device found"),
        _ => panic!("expected DeviceNotFound"),
    }
}

#[test]
fn mark_fallback_default_marks_first_only_when_none_is_default() {
    let mut devices = vec![info("a", false), info("b", false)];
    mark_fallback_default(&mut devices);
    assert!(devices[0].is_default);
    assert!(!devices[1].is_default);

    let mut devices = vec![info("a", false), info("b", true)];
    mark_fallback_default(&mut devices);
    assert!(!devices[0].is_default);
    assert!(devices[1].is_default);

    let mut empty: Vec<AsyncDeviceInfo> = Vec::new();
    mark_fallback_default(&mut empty);
    assert!(empty.is_empty());
}

#[test]
fn device_availability_by_id() {
    let mut devices = vec![info("a", false), info("b", true)];
    devices[1].is_available = false;
    assert!(device_id_available(&devices, "a", false));
    assert!(device_id_available(&devices, "b", false));
    assert!(!device_id_available(&devices, "b", true));
    assert!(!device_id_available(&devices, "zzz", false));
}

#[test]
fn watcher_added_reports_default_when_it_is_default() {
    let events = watcher_added_events(&"id1".to_string(), &None, &Some("id1".to_string()));
    assert_eq!(
        events,
        vec![
            DeviceEvent::DeviceAdded {
                id: "id1".to_string(),
                name: "Unknown Device".to_string()
            },
            DeviceEvent::DefaultDeviceChanged {
                id: "id1".to_string(),
                name: "Unknown Device".to_string()
            },
        ]
    );
    let events = watcher_added_events(
        &"id2".to_string(),
        &Some("Speakers".to_string()),
        &Some("id1".to_string()),
    );
    assert_eq!(events.len(), 1);
}

#[test]
fn watcher_updated_reports_default_then_property() {
    let devices = vec![listed("x", "X"), listed("id1", "Headphones")];
    let events = watcher_updated_events(
        &"id1".to_string(),
        &Some("id1".to_string()),
        &Some(devices),
    );
    assert_eq!(
        events,
        vec![
            DeviceEvent::DefaultDeviceChanged {
                id: "id1".to_string(),
                name: "Headphones".to_string()
            },
            DeviceEvent::DevicePropertyChanged {
                id: "id1".to_string(),
                property: "device_properties".to_string()
            },
        ]
    );
    let events = watcher_updated_events(&"id1".to_string(), &None, &None);
    assert_eq!(
        events,
        vec![DeviceEvent::DevicePropertyChanged {
            id: "id1".to_string(),
            property: "device_properties".to_string()
        }]
    );
}

#[test]
fn default_device_change_only_reports_changes() {
    let (prev, event) = default_device_change(Some(3), Some(3), &Some("A".to_string()));
    assert_eq!(prev, Some(3));
    assert!(event.is_none());

    let (prev, event) = default_device_change(Some(3), Some(4), &Some("B".to_string()));
    assert_eq!(prev, Some(4));
    assert_eq!(
        event,
        Some(DeviceEvent::DefaultDeviceChanged {
            id: "4".to_string(),
            name: "B".to_string()
        })
    );

    let (prev, event) = default_device_change(Some(3), None, &None);
    assert_eq!(prev, None);
    assert!(event.is_none());
}

fn enumerated_sink(description: &str, node_name: &str) -> NodeProps {
    NodeProps {
        media_class: Some("Audio/Sink".to_string()),
        node_description: Some(description.to_string()),
        node_name: Some(node_name.to_string()),
        audio_rate: Some("48000".to_string()),
        audio_channels: Some("2".to_string()),
    }
}

fn not_a_sink() -> NodeProps {
    NodeProps {
        media_class: Some("Audio/Source".to_string()),
        node_description: Some("Mic".to_string()),
        node_name: Some("mic".to_string()),
        audio_rate: None,
        audio_channels: None,
    }
}

#[test]
fn test_default_device_no_false_positives() {
    let globals = vec![
        (31, enumerated_sink("Speakers", "alsa_output.speakers")),
        (40, not_a_sink()),
        (42, enumerated_sink("Default Headphones", "alsa_output.default_headphones")),
    ];
    let devices = enumerate_sinks(&globals, &None);
    assert_eq!(devices.len(), 2);
    for device in devices.iter() {
        assert!(device.is_available);
        if device.name.to_lowercase().contains("default") && device.is_default {
            assert_eq!(devices.first().map(|d| &d.id), Some(&device.id));
        }
    }
    assert!(devices[0].is_default);
    assert!(!devices[1].is_default);
    assert_eq!(devices[1].id, "42");
}

#[test]
fn enumeration_marks_the_exact_default_sink() {
    let globals = vec![
        (31, enumerated_sink("Speakers", "alsa_output.speakers")),
        (42, enumerated_sink("USB DAC", "alsa_output.usb")),
    ];
    let devices = enumerate_sinks(&globals, &Some("alsa_output.usb".to_string()));
    assert!(!devices[0].is_default);
    assert!(devices[1].is_default);
    assert_eq!(devices[1].sample_rate, Some(48000));
    assert_eq!(devices[1].channels, Some(2));
    assert!(enumerate_sinks(&vec![(40, not_a_sink())], &None).is_empty());
}

#[test]
fn successive_polls_report_changes_against_the_previous_poll() {
    let listed = |names: &[&str]| -> Vec<ListedDevice> {
        names.iter().map(|n| ListedDevice { id: n.to_string(), name: n.to_string() }).collect()
    };
    let polls = vec![listed(&["A", "B"]), listed(&["A", "B"]), listed(&["B", "C"])];
    let events = detect_changes_over_polls(&polls);
    assert_eq!(events.len(), 3);
    assert_eq!(
        events[0],
        vec![
            DeviceEvent::DeviceAdded { id: "A".to_string(), name: "A".to_string() },
            DeviceEvent::DeviceAdded { id: "B".to_string(), name: "B".to_string() },
        ]
    );
    assert!(events[1].is_empty());
    assert_eq!(
        events[2],
        vec![
            DeviceEvent::DeviceAdded { id: "C".to_string(), name: "C".to_string() },
            DeviceEvent::DeviceRemoved { id: "A".to_string() },
        ]
    );
}
