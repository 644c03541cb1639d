//! Audio output device listing.
//!
//! Opening a host and asking it for devices is done by the caller; what the
//! host reported is handed in as a [`HostProbe`]. The listing rules (which
//! devices are kept, which one is the default, and the order in which they
//! are presented) are decided here.

use vstd::prelude::*;

use crate::backend::{AudioBackend, BackendError};
use crate::text::{chars_lt, chars_of, lex_lt, str_eq};

verus! {

/// Information about an audio output device.
#[derive(Debug, Clone)]
pub struct AudioDeviceInfo {
    /// Device name (human-readable)
    pub name: String,
    /// Backend/host ID this device belongs to
    pub backend: AudioBackend,
    /// Is this the system default device for this backend?
    pub is_default: bool,
    /// Native sample rate (Hz)
    pub sample_rate: u32,
    /// Number of output channels
    pub channels: u16,
    /// Supported sample rates (min, max)
    pub sample_rate_range: Option<(u32, u32)>,
}

/// What a host reported about one output device.
#[derive(Debug)]
pub struct DeviceProbe {
    /// The device's name, or the error met while reading it.
    pub name: Result<String, String>,
    /// The default output configuration (sample rate, channels), or the error
    /// met while reading it.
    pub default_config: Result<(u32, u16), String>,
    /// The sample-rate range of the first supported output configuration.
    pub sample_rate_range: Option<(u32, u32)>,
}

/// What an opened host reported.
#[derive(Debug)]
pub struct HostProbe {
    /// The host's default output device, if it has one.
    pub default_device: Option<DeviceProbe>,
    /// The host's output devices in enumeration order, or the enumeration error.
    pub devices: Result<Vec<DeviceProbe>, String>,
}

/// Device-related errors.
#[derive(Debug)]
pub enum DeviceError {
    /// Backend not available
    BackendUnavailable(&'static str),
    /// Failed to enumerate devices
    EnumerationFailed(String),
    /// No devices found
    NoDeviceFound,
    /// Device with specified name not found
    DeviceNotFound(String),
    /// Failed to get device information
    DeviceInfoFailed(String),
}

impl DeviceError {
    /// The message of an error.
    pub open spec fn spec_message(&self) -> Seq<char> {
        match self {
            DeviceError::BackendUnavailable(name) => "Audio backend '"@ + name@ + "' is not available"@,
            DeviceError::EnumerationFailed(msg) => "Failed to enumerate audio devices: "@ + msg@,
            DeviceError::NoDeviceFound => "No audio output devices found"@,
            DeviceError::DeviceNotFound(name) => "Audio device '"@ + name@ + "' not found"@,
            DeviceError::DeviceInfoFailed(msg) => "Failed to get device information: "@ + msg@,
        }
    }

    /// The error's message.
    pub fn to_string(&self) -> (r: String)
        ensures
            r@ == self.spec_message(),
    {
        match self {
            DeviceError::BackendUnavailable(name) => {
                String::from_str("Audio backend '").concat(name).concat("' is not available")
            },
            DeviceError::EnumerationFailed(msg) => String::from_str(
                "Failed to enumerate audio devices: ",
            ).concat(msg.as_str()),
            DeviceError::NoDeviceFound => String::from_str("No audio output devices found"),
            DeviceError::DeviceNotFound(name) => {
                String::from_str("Audio device '").concat(name.as_str()).concat("' not found")
            },
            DeviceError::DeviceInfoFailed(msg) => String::from_str(
                "Failed to get device information: ",
            ).concat(msg.as_str()),
        }
    }
}

/// The device error a backend error becomes, over messages: an unavailable
/// backend stays unavailable, every other error becomes an enumeration
/// failure carrying the backend error's message.
pub open spec fn device_error_from_backend_matches(err: BackendError, r: DeviceError) -> bool {
    match err {
        BackendError::BackendUnavailable(name) => r == DeviceError::BackendUnavailable(name),
        _ => r matches DeviceError::EnumerationFailed(m) && m@ == err.spec_message(),
    }
}

impl From<BackendError> for DeviceError {
    fn from(err: BackendError) -> (r: Self) {
        match err {
            BackendError::BackendUnavailable(name) => DeviceError::BackendUnavailable(name),
            _ => DeviceError::EnumerationFailed(err.to_string()),
        }
    }
}

impl vstd::std_specs::convert::FromSpecImpl<BackendError> for DeviceError {
    open spec fn obeys_from_spec() -> bool {
        false
    }

    open spec fn from_spec(err: BackendError) -> DeviceError {
        choose|r: DeviceError| device_error_from_backend_matches(err, r)
    }
}

/// Convert a backend error into a device error: an unavailable backend stays
/// unavailable, every other error becomes an enumeration failure carrying
/// the backend error's message.
pub fn device_error_from(err: BackendError) -> (r: DeviceError)
    ensures
        device_error_from_backend_matches(err, r),
{
    match err {
        BackendError::BackendUnavailable(name) => DeviceError::BackendUnavailable(name),
        _ => DeviceError::EnumerationFailed(err.to_string()),
    }
}

// ---------------------------------------------------------------------------
// Listing rules
// ---------------------------------------------------------------------------

/// The name of the host's default device, when it could be read.
pub open spec fn default_device_name(host: HostProbe) -> Option<String> {
    match host.default_device {
        Some(d) => match d.name {
            Ok(n) => Some(n),
            Err(_) => None,
        },
        None => None,
    }
}

/// Whether a device name is the default device's name.
pub open spec fn names_default(default_name: Option<String>, name: String) -> bool {
    match default_name {
        Some(d) => d@ == name@,
        None => false,
    }
}

/// The entry listed for one probed device: only devices whose name and
/// default configuration could both be read are listed.
pub open spec fn listed_device(
    p: DeviceProbe,
    default_name: Option<String>,
    backend: AudioBackend,
) -> Option<AudioDeviceInfo> {
    match p.name {
        Ok(n) => match p.default_config {
            Ok(cfg) => Some(
                AudioDeviceInfo {
                    name: n,
                    backend,
                    is_default: names_default(default_name, n),
                    sample_rate: cfg.0,
                    channels: cfg.1,
                    sample_rate_range: p.sample_rate_range,
                },
            ),
            Err(_) => None,
        },
        Err(_) => None,
    }
}

/// The entries listed for probed devices, in enumeration order.
pub open spec fn listed_devices(
    ps: Seq<DeviceProbe>,
    default_name: Option<String>,
    backend: AudioBackend,
) -> Seq<AudioDeviceInfo>
    decreases ps.len(),
{
    if ps.len() == 0 {
        Seq::empty()
    } else {
        let rest = listed_devices(ps.drop_last(), default_name, backend);
        match listed_device(ps.last(), default_name, backend) {
            Some(d) => rest.push(d),
            None => rest,
        }
    }
}

/// Presentation order: the default device comes first, then names in
/// lexicographic order.
pub open spec fn device_before(a: AudioDeviceInfo, b: AudioDeviceInfo) -> bool {
    (a.is_default && !b.is_default) || (a.is_default == b.is_default && lex_lt(a.name@, b.name@))
}

/// Where a device is inserted into an ordered list: before the first entry
/// it comes before, after all entries it does not come before (so that
/// entries that compare equal keep their enumeration order).
pub open spec fn insert_pos(s: Seq<AudioDeviceInfo>, x: AudioDeviceInfo) -> nat
    decreases s.len(),
{
    if s.len() == 0 {
        0
    } else if device_before(x, s[0]) {
        0
    } else {
        1 + insert_pos(s.drop_first(), x)
    }
}

/// Stable sort of a device list in presentation order.
pub open spec fn sort_devices(s: Seq<AudioDeviceInfo>) -> Seq<AudioDeviceInfo>
    decreases s.len(),
{
    if s.len() == 0 {
        Seq::empty()
    } else {
        let t = sort_devices(s.drop_last());
        t.insert(insert_pos(t, s.last()) as int, s.last())
    }
}

/// No entry comes before an entry listed ahead of it.
pub open spec fn devices_sorted(s: Seq<AudioDeviceInfo>) -> bool {
    forall|i: int, j: int| 0 <= i < j < s.len() ==> !device_before(#[trigger] s[j], #[trigger] s[i])
}

/// The listing a host probe gives: the listed devices, sorted.
pub open spec fn spec_listing(h: HostProbe, ds: Seq<DeviceProbe>, backend: AudioBackend) -> Seq<
    AudioDeviceInfo,
> {
    sort_devices(listed_devices(ds, default_device_name(h), backend))
}

// ---------------------------------------------------------------------------
// Order lemmas
// ---------------------------------------------------------------------------

proof fn lemma_lex_lt_irreflexive(a: Seq<char>)
    ensures
        !lex_lt(a, a),
    decreases a.len(),
{
    if a.len() > 0 {
        lemma_lex_lt_irreflexive(a.drop_first());
    }
}

proof fn lemma_lex_lt_transitive(a: Seq<char>, b: Seq<char>, c: Seq<char>)
    requires
        lex_lt(a, b),
        lex_lt(b, c),
    ensures
        lex_lt(a, c),
    decreases a.len(),
{
    if a.len() > 0 && a[0] == b[0] && b[0] == c[0] {
        lemma_lex_lt_transitive(a.drop_first(), b.drop_first(), c.drop_first());
    }
}

proof fn lemma_before_irreflexive(a: AudioDeviceInfo)
    ensures
        !device_before(a, a),
{
    lemma_lex_lt_irreflexive(a.name@);
}

proof fn lemma_before_transitive(a: AudioDeviceInfo, b: AudioDeviceInfo, c: AudioDeviceInfo)
    requires
        device_before(a, b),
        device_before(b, c),
    ensures
        device_before(a, c),
{
    if a.is_default == b.is_default && b.is_default == c.is_default {
        lemma_lex_lt_transitive(a.name@, b.name@, c.name@);
    }
}

proof fn lemma_insert_pos(s: Seq<AudioDeviceInfo>, x: AudioDeviceInfo)
    ensures
        insert_pos(s, x) <= s.len(),
        forall|i: int| 0 <= i < insert_pos(s, x) ==> !device_before(x, #[trigger] s[i]),
        insert_pos(s, x) < s.len() ==> device_before(x, s[insert_pos(s, x) as int]),
    decreases s.len(),
{
    if s.len() > 0 && !device_before(x, s[0]) {
        let t = s.drop_first();
        lemma_insert_pos(t, x);
        assert forall|i: int| 0 <= i < insert_pos(s, x) implies !device_before(x, #[trigger] s[i]) by {
            if i > 0 {
                assert(s[i] == t[i - 1]);
            }
        }
        if insert_pos(s, x) < s.len() {
            assert(s[insert_pos(s, x) as int] == t[insert_pos(t, x) as int]);
        }
    }
}

/// The only position that is after every entry `x` does not come before,
/// and at an entry `x` comes before (or at the end), is `insert_pos`.
proof fn lemma_insert_pos_unique(s: Seq<AudioDeviceInfo>, x: AudioDeviceInfo, k: int)
    requires
        0 <= k <= s.len(),
        forall|i: int| 0 <= i < k ==> !device_before(x, #[trigger] s[i]),
        k < s.len() ==> device_before(x, s[k]),
    ensures
        k == insert_pos(s, x),
{
    lemma_insert_pos(s, x);
    let p = insert_pos(s, x) as int;
    if k < p {
        assert(!device_before(x, s[k]));
    } else if p < k {
        assert(!device_before(x, s[p]));
    }
}

proof fn lemma_insert_sorted(s: Seq<AudioDeviceInfo>, x: AudioDeviceInfo)
    requires
        devices_sorted(s),
    ensures
        devices_sorted(s.insert(insert_pos(s, x) as int, x)),
{
    lemma_insert_pos(s, x);
    let k = insert_pos(s, x) as int;
    let r = s.insert(k, x);
    assert forall|i: int, j: int| 0 <= i < j < r.len() implies !device_before(
        #[trigger] r[j],
        #[trigger] r[i],
    ) by {
        if j < k {
            assert(r[i] == s[i] && r[j] == s[j]);
        } else if j == k {
            assert(r[i] == s[i]);
            assert(r[j] == x);
        } else if i == k {
            // r[j] is s[j - 1], at or after the insertion point
            assert(r[j] == s[j - 1]);
            assert(r[i] == x);
            if device_before(s[j - 1], x) {
                lemma_before_transitive(s[j - 1], x, s[k]);
                if j - 1 == k {
                    lemma_before_irreflexive(s[k]);
                } else {
                    assert(!device_before(s[j - 1], s[k]));
                }
            }
        } else if i < k {
            assert(r[i] == s[i] && r[j] == s[j - 1]);
        } else {
            assert(r[i] == s[i - 1] && r[j] == s[j - 1]);
        }
    }
}

/// A sorted device list is in presentation order.
pub proof fn lemma_sort_devices_sorted(s: Seq<AudioDeviceInfo>)
    ensures
        devices_sorted(sort_devices(s)),
    decreases s.len(),
{
    if s.len() > 0 {
        lemma_sort_devices_sorted(s.drop_last());
        lemma_insert_sorted(sort_devices(s.drop_last()), s.last());
    }
}

/// Sorting a device list keeps every entry, as often as it occurred.
pub proof fn lemma_sort_devices_permutation(s: Seq<AudioDeviceInfo>)
    ensures
        sort_devices(s).to_multiset() == s.to_multiset(),
        sort_devices(s).len() == s.len(),
    decreases s.len(),
{
    broadcast use vstd::seq_lib::group_to_multiset_ensures;

    if s.len() > 0 {
        let t = sort_devices(s.drop_last());
        lemma_sort_devices_permutation(s.drop_last());
        lemma_insert_pos(t, s.last());
        vstd::seq_lib::to_multiset_insert(t, insert_pos(t, s.last()) as int, s.last());
        assert(s.drop_last().push(s.last()) =~= s);
    }
}

/// In a list in presentation order, a default device, if there is one, is
/// listed first.
pub proof fn lemma_default_listed_first(s: Seq<AudioDeviceInfo>, j: int)
    requires
        devices_sorted(s),
        0 <= j < s.len(),
        s[j].is_default,
    ensures
        s[0].is_default,
{
    if j > 0 && !s[0].is_default {
        assert(device_before(s[j], s[0]));
    }
}

// ---------------------------------------------------------------------------
// Executable listing
// ---------------------------------------------------------------------------

fn device_before_exec(a: &AudioDeviceInfo, b: &AudioDeviceInfo) -> (r: bool)
    ensures
        r == device_before(*a, *b),
{
    if a.is_default && !b.is_default {
        return true;
    }
    if a.is_default != b.is_default {
        return false;
    }
    let x = chars_of(a.name.as_str());
    let y = chars_of(b.name.as_str());
    chars_lt(&x, &y)
}

fn find_insert_pos(s: &Vec<AudioDeviceInfo>, x: &AudioDeviceInfo) -> (k: usize)
    ensures
        k == insert_pos(s@, *x),
{
    let mut k: usize = 0;
    while k < s.len() && !device_before_exec(x, &s[k])
        invariant
            k <= s.len(),
            forall|i: int| 0 <= i < k ==> !device_before(*x, #[trigger] s@[i]),
        decreases s.len() - k,
    {
        k = k + 1;
    }
    proof {
        lemma_insert_pos_unique(s@, *x, k as int);
    }
    k
}

fn listed_device_exec(p: &DeviceProbe, default_name: &Option<String>, backend: AudioBackend) -> (r:
    Option<AudioDeviceInfo>)
    ensures
        r == listed_device(*p, *default_name, backend),
{
    match &p.name {
        Ok(n) => match &p.default_config {
            Ok(cfg) => {
                let is_default = match default_name {
                    Some(d) => *d == *n,
                    None => false,
                };
                Some(
                    AudioDeviceInfo {
                        name: n.clone(),
                        backend,
                        is_default,
                        sample_rate: cfg.0,
                        channels: cfg.1,
                        sample_rate_range: p.sample_rate_range,
                    },
                )
            },
            Err(_) => None,
        },
        Err(_) => None,
    }
}

fn default_name_of(h: &HostProbe) -> (r: Option<String>)
    ensures
        r == default_device_name(*h),
{
    match &h.default_device {
        Some(d) => match &d.name {
            Ok(n) => Some(n.clone()),
            Err(_) => None,
        },
        None => None,
    }
}

/// Enumerate all output devices for a specific backend.
///
/// A device is listed when its name and default output configuration could
/// both be read; it is marked default when its name is the default device's
/// name. The list is sorted with the default device first, then by name,
/// devices that compare equal keeping their enumeration order.
pub fn list_devices(backend: AudioBackend, host: &Option<HostProbe>) -> (r: Result<
    Vec<AudioDeviceInfo>,
    DeviceError,
>)
    ensures
        match host {
            None => r matches Err(DeviceError::BackendUnavailable(n)) && n@ == backend.spec_name(),
            Some(h) => match h.devices {
                Err(e) => r matches Err(DeviceError::EnumerationFailed(m)) && m@ == e@,
                Ok(ds) => r matches Ok(v) && v@ == spec_listing(*h, ds@, backend),
            },
        },
{
    let h = match host {
        None => {
            return Err(DeviceError::BackendUnavailable(backend.name()));
        },
        Some(h) => h,
    };
    let ds = match &h.devices {
        Err(e) => {
            return Err(DeviceError::EnumerationFailed(e.clone()));
        },
        Ok(ds) => ds,
    };
    let default_name = default_name_of(h);
    let ghost dn = default_device_name(*h);
    let mut out: Vec<AudioDeviceInfo> = Vec::new();
    let mut i: usize = 0;
    while i < ds.len()
        invariant
            i <= ds.len(),
            default_name == dn,
            out@ == sort_devices(listed_devices(ds@.subrange(0, i as int), dn, backend)),
        decreases ds.len() - i,
    {
        let ghost before = ds@.subrange(0, i as int);
        let ghost after = ds@.subrange(0, i + 1);
        proof {
            assert(after.drop_last() =~= before);
            assert(after.last() == ds@[i as int]);
        }
        match listed_device_exec(&ds[i], &default_name, backend) {
            Some(d) => {
                let k = find_insert_pos(&out, &d);
                proof {
                    lemma_insert_pos(out@, d);
                    assert(listed_devices(after, dn, backend) == listed_devices(before, dn, backend).push(
                        d,
                    ));
                    assert(listed_devices(after, dn, backend).drop_last() =~= listed_devices(
                        before,
                        dn,
                        backend,
                    ));
                }
                out.insert(k, d);
            },
            None => {
                proof {
                    assert(listed_devices(after, dn, backend) == listed_devices(before, dn, backend));
                }
            },
        }
        i = i + 1;
    }
    proof {
        assert(ds@.subrange(0, ds.len() as int) =~= ds@);
    }
    Ok(out)
}

/// Get information about the default output device for a backend.
pub fn get_default_device(backend: AudioBackend, host: &Option<HostProbe>) -> (r: Result<
    AudioDeviceInfo,
    DeviceError,
>)
    ensures
        match host {
            None => r matches Err(DeviceError::BackendUnavailable(n)) && n@ == backend.spec_name(),
            Some(h) => match h.default_device {
                None => r matches Err(DeviceError::NoDeviceFound),
                Some(d) => match d.name {
                    Err(e) => r matches Err(DeviceError::DeviceInfoFailed(m)) && m@ == e@,
                    Ok(n) => match d.default_config {
                        Err(e) => r matches Err(DeviceError::DeviceInfoFailed(m)) && m@ == e@,
                        Ok(cfg) => r == Ok::<AudioDeviceInfo, DeviceError>(
                            AudioDeviceInfo {
                                name: n,
                                backend,
                                is_default: true,
                                sample_rate: cfg.0,
                                channels: cfg.1,
                                sample_rate_range: d.sample_rate_range,
                            },
                        ),
                    },
                },
            },
        },
{
    let h = match host {
        None => {
            return Err(DeviceError::BackendUnavailable(backend.name()));
        },
        Some(h) => h,
    };
    let d = match &h.default_device {
        None => {
            return Err(DeviceError::NoDeviceFound);
        },
        Some(d) => d,
    };
    let name = match &d.name {
        Err(e) => {
            return Err(DeviceError::DeviceInfoFailed(e.clone()));
        },
        Ok(n) => n.clone(),
    };
    let cfg = match &d.default_config {
        Err(e) => {
            return Err(DeviceError::DeviceInfoFailed(e.clone()));
        },
        Ok(cfg) => *cfg,
    };
    Ok(
        AudioDeviceInfo {
            name,
            backend,
            is_default: true,
            sample_rate: cfg.0,
            channels: cfg.1,
            sample_rate_range: d.sample_rate_range,
        },
    )
}

/// Whether a probed device's name could be read and is `name`.
pub open spec fn probe_named(p: DeviceProbe, name: Seq<char>) -> bool {
    p.name matches Ok(n) && n@ == name
}

/// Find a device by name within a backend: the position, in the host's
/// enumeration, of the first device whose name is `device_name`.
pub fn find_device_by_name(backend: AudioBackend, host: &Option<HostProbe>, device_name: &str) -> (r:
    Result<usize, DeviceError>)
    ensures
        match host {
            None => r matches Err(DeviceError::BackendUnavailable(n)) && n@ == backend.spec_name(),
            Some(h) => match h.devices {
                Err(e) => r matches Err(DeviceError::EnumerationFailed(m)) && m@ == e@,
                Ok(ds) => match r {
                    Ok(i) => i < ds@.len() && probe_named(ds@[i as int], device_name@) && forall|
                        j: int,
                    |
                        0 <= j < i ==> !probe_named(#[trigger] ds@[j], device_name@),
                    Err(DeviceError::DeviceNotFound(m)) => m@ == device_name@ && forall|j: int|
                        0 <= j < ds@.len() ==> !probe_named(#[trigger] ds@[j], device_name@),
                    _ => false,
                },
            },
        },
{
    let h = match host {
        None => {
            return Err(DeviceError::BackendUnavailable(backend.name()));
        },
        Some(h) => h,
    };
    let ds = match &h.devices {
        Err(e) => {
            return Err(DeviceError::EnumerationFailed(e.clone()));
        },
        Ok(ds) => ds,
    };
    let mut i: usize = 0;
    while i < ds.len()
        invariant
            i <= ds.len(),
            *host == Some(*h),
            h.devices == Ok::<Vec<DeviceProbe>, String>(*ds),
            forall|j: int| 0 <= j < i ==> !probe_named(#[trigger] ds@[j], device_name@),
        decreases ds.len() - i,
    {
        let found = match &ds[i].name {
            Ok(n) => str_eq(n.as_str(), device_name),
            Err(_) => false,
        };
        if found {
            return Ok(i);
        }
        i = i + 1;
    }
    Err(DeviceError::DeviceNotFound(String::from_str(device_name)))
}

} // verus!
