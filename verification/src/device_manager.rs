//! Bookkeeping of the current audio output device: backend, device name and
//! the device identifier derived from them.

use vstd::prelude::*;

use crate::backend::AudioBackend;
use crate::text::{seq_contains, str_contains, str_eq};

verus! {

/// The identifier of a device: `{backend name}::{device name}`.
pub open spec fn device_id_of(backend: AudioBackend, device_name: Seq<char>) -> Seq<char> {
    backend.spec_name() + "::"@ + device_name
}

/// The current device: backend, device name and device identifier
/// (`None` in silent mode).
pub struct DeviceManager {
    backend: AudioBackend,
    device_name: String,
    device_id: Option<String>,
}

/// The current-device state, with text as character sequences.
pub struct DeviceManagerView {
    /// Current backend
    pub backend: AudioBackend,
    /// Current device name
    pub device_name: Seq<char>,
    /// Current device identifier, if a device is active
    pub device_id: Option<Seq<char>>,
}

/// The state after a stream was created on a device.
pub open spec fn after_update(
    backend: AudioBackend,
    device_name: Seq<char>,
    is_silent_mode: bool,
) -> DeviceManagerView {
    DeviceManagerView {
        backend,
        device_name,
        device_id: if is_silent_mode {
            None
        } else {
            Some(device_id_of(backend, device_name))
        },
    }
}

/// Whether an identifier or name reported by a platform denotes the current
/// device: it equals or contains the device name, or it equals, contains or
/// is contained in the device identifier.
pub open spec fn denotes_current(v: DeviceManagerView, q: Seq<char>) -> bool {
    ||| v.device_name == q
    ||| seq_contains(q, v.device_name)
    ||| match v.device_id {
        Some(id) => id == q || seq_contains(q, id) || seq_contains(id, q),
        None => false,
    }
}

impl DeviceManager {
    /// The current-device state.
    pub closed spec fn view(&self) -> DeviceManagerView {
        DeviceManagerView {
            backend: self.backend,
            device_name: self.device_name@,
            device_id: match self.device_id {
                Some(id) => Some(id@),
                None => None,
            },
        }
    }

    /// Create a device manager with no device yet: the default backend,
    /// device name `(None)`, no identifier.
    pub fn new() -> (r: Self)
        ensures
            r.view() == (DeviceManagerView {
                backend: AudioBackend::Default,
                device_name: "(None)"@,
                device_id: None,
            }),
    {
        DeviceManager {
            backend: AudioBackend::Default,
            device_name: String::from_str("(None)"),
            device_id: None,
        }
    }

    /// Get current backend.
    pub fn get_current_backend(&self) -> (r: AudioBackend)
        ensures
            r == self.view().backend,
    {
        self.backend
    }

    /// Get current device name.
    pub fn get_current_device(&self) -> (r: String)
        ensures
            r@ == self.view().device_name,
    {
        self.device_name.clone()
    }

    /// Get current device identifier (`None` in silent mode).
    pub fn get_current_device_id(&self) -> (r: Option<String>)
        ensures
            match r {
                Some(id) => self.view().device_id == Some(id@),
                None => self.view().device_id is None,
            },
    {
        match &self.device_id {
            Some(id) => Some(id.clone()),
            None => None,
        }
    }

    /// Record the device a stream was created on.
    pub fn update_device(&mut self, backend: AudioBackend, device_name: &str, is_silent_mode: bool)
        ensures
            final(self).view() == after_update(backend, device_name@, is_silent_mode),
    {
        self.backend = backend;
        self.device_name = String::from_str(device_name);
        self.device_id = if is_silent_mode {
            None
        } else {
            Some(Self::make_device_id(backend, device_name))
        };
    }

    /// Create a device identifier from backend and device name:
    /// `{backend}::{device_name}`.
    pub fn make_device_id(backend: AudioBackend, device_name: &str) -> (r: String)
        ensures
            r@ == device_id_of(backend, device_name@),
    {
        String::from_str(backend.name()).concat("::").concat(device_name)
    }

    /// Whether an identifier or name reported by a platform denotes the
    /// current device.
    pub fn is_current_device(&self, device_id_or_name: &str) -> (r: bool)
        ensures
            r == denotes_current(self.view(), device_id_or_name@),
    {
        if str_eq(self.device_name.as_str(), device_id_or_name) {
            return true;
        }
        if str_contains(device_id_or_name, self.device_name.as_str()) {
            return true;
        }
        match &self.device_id {
            Some(stored) => {
                str_eq(stored.as_str(), device_id_or_name) || str_contains(
                    device_id_or_name,
                    stored.as_str(),
                ) || str_contains(stored.as_str(), device_id_or_name)
            },
            None => false,
        }
    }
}

/// After a stream was created on a device (outside silent mode), both the
/// device's name and its identifier denote the current device.
pub proof fn lemma_updated_device_is_current(backend: AudioBackend, device_name: Seq<char>)
    ensures
        denotes_current(after_update(backend, device_name, false), device_name),
        denotes_current(after_update(backend, device_name, false), device_id_of(backend, device_name)),
        after_update(backend, device_name, false).device_id == Some(device_id_of(backend, device_name)),
        after_update(backend, device_name, true).device_id is None,
{
}

/// Identifiers are made from the backend name, `::` and the device name, so
/// distinct device names on one backend get distinct identifiers.
pub proof fn lemma_device_id_injective(backend: AudioBackend, a: Seq<char>, b: Seq<char>)
    requires
        device_id_of(backend, a) == device_id_of(backend, b),
    ensures
        a == b,
{
    let p = backend.spec_name() + "::"@;
    assert(device_id_of(backend, a) == p + a);
    assert(device_id_of(backend, b) == p + b);
    assert(a =~= (p + a).subrange(p.len() as int, (p + a).len() as int));
    assert(b =~= (p + b).subrange(p.len() as int, (p + b).len() as int));
}

} // verus!
