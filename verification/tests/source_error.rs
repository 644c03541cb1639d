use soul_audio_desktop::source_error::{
    io_error_to_audio_source_error, AudioSourceError, ErrorSeverity, IoErrorKind,
};

#[test]
fn test_user_message_generation() {
    let err = AudioSourceError::FileNotFound {
        path: "/path/to/music.mp3".to_string(),
    };
    let msg = err.user_message();
    assert!(msg.contains("could not be found"));
    assert!(msg.contains("music.mp3"));
}

#[test]
fn test_recoverable_errors() {
    let recoverable = AudioSourceError::PermissionDenied {
        path: "/test.mp3".to_string(),
    };
    assert!(recoverable.is_recoverable());

    let unrecoverable = AudioSourceError::FileNotFound {
        path: "/test.mp3".to_string(),
    };
    assert!(!unrecoverable.is_recoverable());
}

#[test]
fn test_severity_levels() {
    let warning_err = AudioSourceError::FileNotFound {
        path: "/test.mp3".to_string(),
    };
    assert_eq!(warning_err.severity(), ErrorSeverity::Warning);

    let error_err = AudioSourceError::DecoderFailed {
        reason: "test".to_string(),
    };
    assert_eq!(error_err.severity(), ErrorSeverity::Error);
}

#[test]
fn test_io_error_conversion() {
    let path = "/test.mp3";

    let err = io_error_to_audio_source_error(path, IoErrorKind::NotFound, "not found".to_string());
    assert!(matches!(err, AudioSourceError::FileNotFound { .. }));

    let err = io_error_to_audio_source_error(path, IoErrorKind::PermissionDenied, "denied".to_string());
    assert!(matches!(err, AudioSourceError::PermissionDenied { .. }));

    let err = io_error_to_audio_source_error(path, IoErrorKind::Other, "other error".to_string());
    assert!(matches!(err, AudioSourceError::FileReadError { .. }));
}

#[test]
fn io_error_conversion_keeps_path_and_reason() {
    match io_error_to_audio_source_error("/a.flac", IoErrorKind::Other, "disk on fire".to_string()) {
        AudioSourceError::FileReadError { path, reason } => {
            assert_eq!(path, "/a.flac");
            assert_eq!(reason, "disk on fire");
        }
        _ => panic!("expected FileReadError"),
    }
}

#[test]
fn user_messages_are_exact() {
    let e = AudioSourceError::CorruptedFile {
        path: "/x.mp3".to_string(),
        details: "bad frame".to_string(),
    };
    assert_eq!(e.user_message(), "The file is corrupted or malformed: /x.mp3 (bad frame)");
    assert_eq!(e.to_string(), "Corrupted file: /x.mp3");
    let e = AudioSourceError::ProbeFailed {
        path: "/y".to_string(),
        reason: "?".to_string(),
    };
    assert_eq!(e.user_message(), "Failed to identify file format: /y (?)");
    assert_eq!(e.severity(), ErrorSeverity::Error);
    let e = AudioSourceError::ResamplerFailed {
        reason: "ratio".to_string(),
    };
    assert_eq!(e.user_message(), "Audio resampler failed: ratio");
    assert_eq!(e.to_string(), "Resampler initialization failed: ratio");
    assert!(!e.is_recoverable());
    let e = AudioSourceError::NoAudioTracks {
        path: "/z".to_string(),
    };
    assert_eq!(e.severity(), ErrorSeverity::Warning);
    assert_eq!(e.to_string(), "No audio tracks found in file: /z");
}
