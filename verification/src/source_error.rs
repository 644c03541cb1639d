//! Audio source errors: classification, severity and user-facing messages.
//!
//! Paths are carried as their text; the caller turns a file system path
//! into text (and an I/O error into its kind and message) before building
//! an error here.

use vstd::prelude::*;

verus! {

/// Audio source errors with detailed context.
#[derive(Debug, Clone)]
pub enum AudioSourceError {
    /// File does not exist at the given path
    FileNotFound {
        /// Path that was not found
        path: String,
    },
    /// Permission denied when trying to access file
    PermissionDenied {
        /// Path that was inaccessible
        path: String,
    },
    /// File exists but has an unsupported format
    UnsupportedFormat {
        /// Path to the unsupported file
        path: String,
        /// Details about why the format is unsupported
        details: String,
    },
    /// File is corrupted or malformed
    CorruptedFile {
        /// Path to the corrupted file
        path: String,
        /// Details about the corruption
        details: String,
    },
    /// File read error (other I/O errors)
    FileReadError {
        /// Path that failed to read
        path: String,
        /// Reason for the failure
        reason: String,
    },
    /// Decoder failed to initialize or decode
    DecoderFailed {
        /// Reason for decoder failure
        reason: String,
    },
    /// Resampler failed to initialize
    ResamplerFailed {
        /// Reason for resampler failure
        reason: String,
    },
    /// No audio tracks found in the file
    NoAudioTracks {
        /// Path to the file with no tracks
        path: String,
    },
    /// Probe failed to identify file format
    ProbeFailed {
        /// Path that failed to probe
        path: String,
        /// Reason for probe failure
        reason: String,
    },
}

/// Error severity levels.
#[derive(Debug, Clone, Copy, PartialEq, Eq, Structural)]
pub enum ErrorSeverity {
    /// Warning - user should be notified but playback can continue
    Warning,
    /// Error - playback cannot continue for this track
    Error,
}

impl AudioSourceError {
    /// The error's short description.
    pub open spec fn spec_message(&self) -> Seq<char> {
        match self {
            AudioSourceError::FileNotFound { path } => "File not found: "@ + path@,
            AudioSourceError::PermissionDenied { path } => "Permission denied: "@ + path@,
            AudioSourceError::UnsupportedFormat { path, .. } => "Unsupported format: "@ + path@,
            AudioSourceError::CorruptedFile { path, .. } => "Corrupted file: "@ + path@,
            AudioSourceError::FileReadError { path, .. } => "Failed to read file: "@ + path@,
            AudioSourceError::DecoderFailed { reason } => "Decoder failed: "@ + reason@,
            AudioSourceError::ResamplerFailed { reason } => "Resampler initialization failed: "@
                + reason@,
            AudioSourceError::NoAudioTracks { path } => "No audio tracks found in file: "@ + path@,
            AudioSourceError::ProbeFailed { path, .. } => "Failed to probe file format: "@ + path@,
        }
    }

    /// The user-facing message of an error.
    pub open spec fn spec_user_message(&self) -> Seq<char> {
        match self {
            AudioSourceError::FileNotFound { path } => "The file could not be found: "@ + path@,
            AudioSourceError::PermissionDenied { path } => "Permission denied when trying to access: "@
                + path@,
            AudioSourceError::UnsupportedFormat { path, details } => "Unsupported audio format: "@
                + path@ + " ("@ + details@ + ")"@,
            AudioSourceError::CorruptedFile { path, details } =>
                "The file is corrupted or malformed: "@ + path@ + " ("@ + details@ + ")"@,
            AudioSourceError::FileReadError { path, reason } => "Failed to read file: "@ + path@
                + " ("@ + reason@ + ")"@,
            AudioSourceError::DecoderFailed { reason } => "Audio decoder failed: "@ + reason@,
            AudioSourceError::ResamplerFailed { reason } => "Audio resampler failed: "@ + reason@,
            AudioSourceError::NoAudioTracks { path } => "No audio tracks found in: "@ + path@,
            AudioSourceError::ProbeFailed { path, reason } => "Failed to identify file format: "@
                + path@ + " ("@ + reason@ + ")"@,
        }
    }

    /// The severity of an error.
    pub open spec fn spec_severity(&self) -> ErrorSeverity {
        match self {
            AudioSourceError::FileNotFound { .. } => ErrorSeverity::Warning,
            AudioSourceError::PermissionDenied { .. } => ErrorSeverity::Warning,
            AudioSourceError::UnsupportedFormat { .. } => ErrorSeverity::Warning,
            AudioSourceError::CorruptedFile { .. } => ErrorSeverity::Error,
            AudioSourceError::FileReadError { .. } => ErrorSeverity::Error,
            AudioSourceError::DecoderFailed { .. } => ErrorSeverity::Error,
            AudioSourceError::ResamplerFailed { .. } => ErrorSeverity::Error,
            AudioSourceError::NoAudioTracks { .. } => ErrorSeverity::Warning,
            AudioSourceError::ProbeFailed { .. } => ErrorSeverity::Error,
        }
    }

    /// The error's short description.
    pub fn to_string(&self) -> (r: String)
        ensures
            r@ == self.spec_message(),
    {
        match self {
            AudioSourceError::FileNotFound { path } => String::from_str("File not found: ").concat(
                path.as_str(),
            ),
            AudioSourceError::PermissionDenied { path } => String::from_str(
                "Permission denied: ",
            ).concat(path.as_str()),
            AudioSourceError::UnsupportedFormat { path, .. } => String::from_str(
                "Unsupported format: ",
            ).concat(path.as_str()),
            AudioSourceError::CorruptedFile { path, .. } => String::from_str(
                "Corrupted file: ",
            ).concat(path.as_str()),
            AudioSourceError::FileReadError { path, .. } => String::from_str(
                "Failed to read file: ",
            ).concat(path.as_str()),
            AudioSourceError::DecoderFailed { reason } => String::from_str(
                "Decoder failed: ",
            ).concat(reason.as_str()),
            AudioSourceError::ResamplerFailed { reason } => String::from_str(
                "Resampler initialization failed: ",
            ).concat(reason.as_str()),
            AudioSourceError::NoAudioTracks { path } => String::from_str(
                "No audio tracks found in file: ",
            ).concat(path.as_str()),
            AudioSourceError::ProbeFailed { path, .. } => String::from_str(
                "Failed to probe file format: ",
            ).concat(path.as_str()),
        }
    }

    /// Get a user-friendly error message.
    pub fn user_message(&self) -> (r: String)
        ensures
            r@ == self.spec_user_message(),
    {
        match self {
            AudioSourceError::FileNotFound { path } => String::from_str(
                "The file could not be found: ",
            ).concat(path.as_str()),
            AudioSourceError::PermissionDenied { path } => String::from_str(
                "Permission denied when trying to access: ",
            ).concat(path.as_str()),
            AudioSourceError::UnsupportedFormat { path, details } => String::from_str(
                "Unsupported audio format: ",
            ).concat(path.as_str()).concat(" (").concat(details.as_str()).concat(")"),
            AudioSourceError::CorruptedFile { path, details } => String::from_str(
                "The file is corrupted or malformed: ",
            ).concat(path.as_str()).concat(" (").concat(details.as_str()).concat(")"),
            AudioSourceError::FileReadError { path, reason } => String::from_str(
                "Failed to read file: ",
            ).concat(path.as_str()).concat(" (").concat(reason.as_str()).concat(")"),
            AudioSourceError::DecoderFailed { reason } => String::from_str(
                "Audio decoder failed: ",
            ).concat(reason.as_str()),
            AudioSourceError::ResamplerFailed { reason } => String::from_str(
                "Audio resampler failed: ",
            ).concat(reason.as_str()),
            AudioSourceError::NoAudioTracks { path } => String::from_str(
                "No audio tracks found in: ",
            ).concat(path.as_str()),
            AudioSourceError::ProbeFailed { path, reason } => String::from_str(
                "Failed to identify file format: ",
            ).concat(path.as_str()).concat(" (").concat(reason.as_str()).concat(")"),
        }
    }

    /// Check if this error is recoverable: only read errors and denied
    /// permissions might succeed if retried.
    pub fn is_recoverable(&self) -> (r: bool)
        ensures
            r == (*self is FileReadError || *self is PermissionDenied),
    {
        matches!(
            self,
            AudioSourceError::FileReadError { .. } | AudioSourceError::PermissionDenied { .. }
        )
    }

    /// Get the severity level of this error.
    pub fn severity(&self) -> (r: ErrorSeverity)
        ensures
            r == self.spec_severity(),
    {
        match self {
            AudioSourceError::FileNotFound { .. } => ErrorSeverity::Warning,
            AudioSourceError::PermissionDenied { .. } => ErrorSeverity::Warning,
            AudioSourceError::UnsupportedFormat { .. } => ErrorSeverity::Warning,
            AudioSourceError::CorruptedFile { .. } => ErrorSeverity::Error,
            AudioSourceError::FileReadError { .. } => ErrorSeverity::Error,
            AudioSourceError::DecoderFailed { .. } => ErrorSeverity::Error,
            AudioSourceError::ResamplerFailed { .. } => ErrorSeverity::Error,
            AudioSourceError::NoAudioTracks { .. } => ErrorSeverity::Warning,
            AudioSourceError::ProbeFailed { .. } => ErrorSeverity::Error,
        }
    }
}

/// The kinds of I/O failure that are told apart.
#[derive(Debug, Clone, Copy, PartialEq, Eq, Structural)]
pub enum IoErrorKind {
    /// The file does not exist
    NotFound,
    /// Access to the file was denied
    PermissionDenied,
    /// Any other I/O failure
    Other,
}

/// Categorize an I/O failure on `path` (of the given kind, with the given
/// message) as an audio source error.
pub fn io_error_to_audio_source_error(path: &str, kind: IoErrorKind, message: String) -> (r:
    AudioSourceError)
    ensures
        match kind {
            IoErrorKind::NotFound => r matches AudioSourceError::FileNotFound { path: p } && p@
                == path@,
            IoErrorKind::PermissionDenied => r matches AudioSourceError::PermissionDenied {
                path: p,
            } && p@ == path@,
            IoErrorKind::Other => r matches AudioSourceError::FileReadError { path: p, reason: m }
                && p@ == path@ && m == message,
        },
{
    match kind {
        IoErrorKind::NotFound => AudioSourceError::FileNotFound { path: String::from_str(path) },
        IoErrorKind::PermissionDenied => AudioSourceError::PermissionDenied {
            path: String::from_str(path),
        },
        IoErrorKind::Other => AudioSourceError::FileReadError {
            path: String::from_str(path),
            reason: message,
        },
    }
}

} // verus!
