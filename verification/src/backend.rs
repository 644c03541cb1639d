//! Audio backend selection.
//!
//! The backends compiled into this build are described here; whether a
//! backend is usable on the running system, and how many output devices it
//! has, is probed by the caller and handed in as plain values.

use vstd::prelude::*;

use crate::text::{decimal, u64_to_decimal};

verus! {

/// Audio backend / driver selection.
#[derive(Debug, Clone, Copy, PartialEq, Eq, Hash, Structural)]
pub enum AudioBackend {
    /// System default backend (ALSA on Linux).
    Default,
}

/// Human-readable name of the default backend on this platform.
pub open spec fn spec_default_backend_name() -> Seq<char> {
    "ALSA"@
}

/// Detailed description of the default backend on this platform.
pub open spec fn spec_default_backend_description() -> Seq<char> {
    "Advanced Linux Sound Architecture (direct hardware access)"@
}

impl AudioBackend {
    /// Name of a backend, as a sequence of characters.
    pub open spec fn spec_name(self) -> Seq<char> {
        match self {
            AudioBackend::Default => spec_default_backend_name(),
        }
    }

    /// Description of a backend, as a sequence of characters.
    pub open spec fn spec_description(self) -> Seq<char> {
        match self {
            AudioBackend::Default => spec_default_backend_description(),
        }
    }

    /// Get human-readable name of backend.
    pub fn name(&self) -> (r: &'static str)
        ensures
            r@ == self.spec_name(),
    {
        match self {
            AudioBackend::Default => "ALSA",
        }
    }

    /// Get detailed description of backend.
    pub fn description(&self) -> (r: &'static str)
        ensures
            r@ == self.spec_description(),
    {
        match self {
            AudioBackend::Default => "Advanced Linux Sound Architecture (direct hardware access)",
        }
    }
}


/// Information about an audio backend.
#[derive(Debug, Clone)]
pub struct BackendInfo {
    /// Backend type
    pub backend: AudioBackend,
    /// Human-readable name
    pub name: String,
    /// Description
    pub description: String,
    /// Is this backend available?
    pub available: bool,
    /// Is this the system default backend?
    pub is_default: bool,
    /// Number of output devices available on this backend
    pub device_count: usize,
}

/// What probing a backend on the running system found: whether a host for
/// it could be opened, and how many output devices enumerating that host
/// listed (`None` when the enumeration failed).
#[derive(Debug, Clone, Copy, PartialEq, Eq, Structural)]
pub struct BackendProbe {
    /// A host for the backend could be opened.
    pub available: bool,
    /// Number of output devices listed, if the enumeration succeeded.
    pub output_device_count: Option<usize>,
}

/// The backends compiled into this build, in the order they are listed.
pub open spec fn compiled_backends() -> Seq<AudioBackend> {
    seq![AudioBackend::Default]
}

/// The device count reported for a backend, given its probe.
pub open spec fn spec_device_count(probe: BackendProbe) -> usize {
    if probe.available {
        match probe.output_device_count {
            Some(n) => n,
            None => 0,
        }
    } else {
        0
    }
}

/// The information reported for one backend, given its probe.
pub open spec fn spec_backend_info_matches(info: BackendInfo, backend: AudioBackend, probe: BackendProbe) -> bool {
    &&& info.backend == backend
    &&& info.name@ == backend.spec_name()
    &&& info.description@ == backend.spec_description()
    &&& info.available == probe.available
    &&& info.is_default == (backend.spec_name() == AudioBackend::Default.spec_name())
    &&& info.device_count == spec_device_count(probe)
}

/// List all audio backends available on the current platform.
///
/// The default backend is always listed; no other backend is compiled in.
pub fn list_available_backends() -> (r: Vec<AudioBackend>)
    ensures
        r@ == compiled_backends(),
{
    let mut backends = Vec::new();
    backends.push(AudioBackend::Default);
    proof {
        assert(backends@ =~= compiled_backends());
    }
    backends
}

/// Get detailed information about all compiled backends, from the probe of
/// the default backend.
pub fn get_backend_info(default_probe: BackendProbe) -> (r: Vec<BackendInfo>)
    ensures
        r@.len() == 1,
        spec_backend_info_matches(r@[0], AudioBackend::Default, default_probe),
{
    let backend = AudioBackend::Default;
    let available = default_probe.available;
    let device_count: usize = if available {
        match default_probe.output_device_count {
            Some(n) => n,
            None => 0,
        }
    } else {
        0
    };
    let name = String::from_str(backend.name());
    let description = String::from_str(backend.description());
    let mut r = Vec::new();
    r.push(BackendInfo {
        backend,
        name,
        description,
        available,
        is_default: true,
        device_count,
    });
    r
}

/// Backend-related errors.
#[derive(Debug)]
pub enum BackendError {
    /// Backend not available on this system
    BackendUnavailable(&'static str),
    /// No backends available
    NoBackendsAvailable,
    /// CPAL error
    CpalError(String),
    /// Backend enumeration timed out (seconds)
    EnumerationTimeout(u64),
    /// Task join error during async enumeration
    TaskJoinError(String),
}

impl BackendError {
    /// The message of an error.
    pub open spec fn spec_message(&self) -> Seq<char> {
        match self {
            BackendError::BackendUnavailable(name) => "Audio backend '"@ + name@
                + "' is not available on this system"@,
            BackendError::NoBackendsAvailable => "No audio backends available"@,
            BackendError::CpalError(msg) => "CPAL error: "@ + msg@,
            BackendError::EnumerationTimeout(secs) => "Backend enumeration timed out after "@
                + decimal(*secs as nat)
                + " seconds. The audio service may be hung. Try restarting the audio service or rebooting your system."@,
            BackendError::TaskJoinError(msg) => "Failed to join backend enumeration task: "@ + msg@,
        }
    }

    /// The error's message.
    pub fn to_string(&self) -> (r: String)
        ensures
            r@ == self.spec_message(),
    {
        match self {
            BackendError::BackendUnavailable(name) => {
                String::from_str("Audio backend '").concat(name).concat(
                    "' is not available on this system",
                )
            },
            BackendError::NoBackendsAvailable => String::from_str("No audio backends available"),
            BackendError::CpalError(msg) => String::from_str("CPAL error: ").concat(msg.as_str()),
            BackendError::EnumerationTimeout(secs) => {
                let n = u64_to_decimal(*secs);
                String::from_str("Backend enumeration timed out after ").concat(n.as_str()).concat(
                    " seconds. The audio service may be hung. Try restarting the audio service or rebooting your system.",
                )
            },
            BackendError::TaskJoinError(msg) => String::from_str(
                "Failed to join backend enumeration task: ",
            ).concat(msg.as_str()),
        }
    }
}

} // verus!
