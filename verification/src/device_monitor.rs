//! Device-change monitoring: the events reported to watchers and the rules
//! that turn what a platform reports into those events.
//!
//! Listening to the platform (polling a host, a registry listener, property
//! listeners, a device watcher) is done by the caller, which hands each
//! observation to one of the functions here and delivers the events they
//! return.

use vstd::prelude::*;

use crate::text::{decimal, parse_u32, parse_u32_spec, seq_contains, str_contains, str_eq, u64_to_decimal};

verus! {

broadcast use vstd::std_specs::hash::group_hash_axioms;

/// Device change event types.
#[derive(Debug, Clone, PartialEq, Eq)]
pub enum DeviceEvent {
    /// A new device was connected
    DeviceAdded {
        /// Device identifier
        id: String,
        /// Device name
        name: String,
    },
    /// A device was disconnected
    DeviceRemoved {
        /// Device identifier
        id: String,
    },
    /// Default device changed
    DefaultDeviceChanged {
        /// Device identifier
        id: String,
        /// Device name
        name: String,
    },
    /// Device property changed (sample rate, format, etc.)
    DevicePropertyChanged {
        /// Device identifier
        id: String,
        /// Which property
        property: String,
    },
}

/// A device event, with its text as character sequences.
pub enum DeviceEventView {
    /// A new device was connected
    DeviceAdded { id: Seq<char>, name: Seq<char> },
    /// A device was disconnected
    DeviceRemoved { id: Seq<char> },
    /// Default device changed
    DefaultDeviceChanged { id: Seq<char>, name: Seq<char> },
    /// Device property changed
    DevicePropertyChanged { id: Seq<char>, property: Seq<char> },
}

impl View for DeviceEvent {
    type V = DeviceEventView;

    open spec fn view(&self) -> DeviceEventView {
        match self {
            DeviceEvent::DeviceAdded { id, name } => DeviceEventView::DeviceAdded {
                id: id@,
                name: name@,
            },
            DeviceEvent::DeviceRemoved { id } => DeviceEventView::DeviceRemoved { id: id@ },
            DeviceEvent::DefaultDeviceChanged { id, name } => DeviceEventView::DefaultDeviceChanged {
                id: id@,
                name: name@,
            },
            DeviceEvent::DevicePropertyChanged { id, property } =>
                DeviceEventView::DevicePropertyChanged { id: id@, property: property@ },
        }
    }
}

/// A sequence of events, viewed.
pub open spec fn events_view(s: Seq<DeviceEvent>) -> Seq<DeviceEventView> {
    Seq::new(s.len(), |i: int| s[i]@)
}

proof fn lemma_events_view_push(s: Seq<DeviceEvent>, e: DeviceEvent)
    ensures
        events_view(s.push(e)) == events_view(s).push(e@),
{
    assert(events_view(s.push(e)) =~= events_view(s).push(e@));
}

/// Information about an audio device, as a monitor reports it.
#[derive(Debug, Clone)]
pub struct AsyncDeviceInfo {
    /// Unique device identifier
    pub id: String,
    /// Human-readable device name
    pub name: String,
    /// Whether this is the default device
    pub is_default: bool,
    /// Whether the device is currently available
    pub is_available: bool,
    /// Sample rate (if known)
    pub sample_rate: Option<u32>,
    /// Channel count (if known)
    pub channels: Option<u16>,
}

/// Errors that can occur during device monitoring.
#[derive(Debug)]
pub enum DeviceMonitorError {
    /// Platform API not available
    PlatformUnavailable(String),
    /// Device enumeration failed
    EnumerationFailed(String),
    /// Device not found
    DeviceNotFound(String),
    /// Permission denied
    PermissionDenied(String),
    /// Internal error
    Internal(String),
}

impl DeviceMonitorError {
    /// The message of an error.
    pub open spec fn spec_message(&self) -> Seq<char> {
        match self {
            DeviceMonitorError::PlatformUnavailable(m) => "Platform unavailable: "@ + m@,
            DeviceMonitorError::EnumerationFailed(m) => "Enumeration failed: "@ + m@,
            DeviceMonitorError::DeviceNotFound(m) => "Device not found: "@ + m@,
            DeviceMonitorError::PermissionDenied(m) => "Permission denied: "@ + m@,
            DeviceMonitorError::Internal(m) => "Internal error: "@ + m@,
        }
    }

    /// The error's message.
    pub fn to_string(&self) -> (r: String)
        ensures
            r@ == self.spec_message(),
    {
        match self {
            DeviceMonitorError::PlatformUnavailable(m) => String::from_str(
                "Platform unavailable: ",
            ).concat(m.as_str()),
            DeviceMonitorError::EnumerationFailed(m) => String::from_str(
                "Enumeration failed: ",
            ).concat(m.as_str()),
            DeviceMonitorError::DeviceNotFound(m) => String::from_str("Device not found: ").concat(
                m.as_str(),
            ),
            DeviceMonitorError::PermissionDenied(m) => String::from_str(
                "Permission denied: ",
            ).concat(m.as_str()),
            DeviceMonitorError::Internal(m) => String::from_str("Internal error: ").concat(
                m.as_str(),
            ),
        }
    }
}

/// Handle for stopping device change watching.
pub trait WatchHandle {
    /// Stop watching for device changes.
    fn stop(&mut self);
}

// ---------------------------------------------------------------------------
// Monitors
// ---------------------------------------------------------------------------

/// Device monitor that polls the default audio host.
pub struct CpalFallbackMonitor {
    platform: &'static str,
}

/// Device monitor driven by the PipeWire registry.
pub struct LinuxDeviceMonitor {
    platform: &'static str,
}

/// Device monitor driven by CoreAudio property listeners.
pub struct MacOSDeviceMonitor {
    platform: &'static str,
}

/// Device monitor driven by a WinRT device watcher.
pub struct WindowsDeviceMonitor {
    platform: &'static str,
}

/// Platform name of the polling monitor on this (Linux) build.
pub open spec fn fallback_platform_name() -> Seq<char> {
    "Linux (CPAL Fallback - Native PipeWire Async Planned)"@
}

impl CpalFallbackMonitor {
    /// Create a new polling monitor.
    pub fn new() -> (r: Self)
        ensures
            r.platform_name_spec() == fallback_platform_name(),
    {
        CpalFallbackMonitor { platform: "Linux (CPAL Fallback - Native PipeWire Async Planned)" }
    }

    /// The platform name, as a character sequence.
    pub closed spec fn platform_name_spec(&self) -> Seq<char> {
        self.platform@
    }

    /// Get platform name.
    pub fn platform_name(&self) -> (r: &'static str)
        ensures
            r@ == self.platform_name_spec(),
    {
        self.platform
    }
}

impl LinuxDeviceMonitor {
    /// Create a new PipeWire monitor.
    pub fn new() -> (r: Self)
        ensures
            r.platform_name_spec() == "Linux (PipeWire Native Async)"@,
    {
        LinuxDeviceMonitor { platform: "Linux (PipeWire Native Async)" }
    }

    /// The platform name, as a character sequence.
    pub closed spec fn platform_name_spec(&self) -> Seq<char> {
        self.platform@
    }

    /// Get platform name.
    pub fn platform_name(&self) -> (r: &'static str)
        ensures
            r@ == self.platform_name_spec(),
    {
        self.platform
    }
}

impl MacOSDeviceMonitor {
    /// Create a new CoreAudio monitor.
    pub fn new() -> (r: Self)
        ensures
            r.platform_name_spec() == "macOS (CoreAudio Native Async)"@,
    {
        MacOSDeviceMonitor { platform: "macOS (CoreAudio Native Async)" }
    }

    /// The platform name, as a character sequence.
    pub closed spec fn platform_name_spec(&self) -> Seq<char> {
        self.platform@
    }

    /// Get platform name.
    pub fn platform_name(&self) -> (r: &'static str)
        ensures
            r@ == self.platform_name_spec(),
    {
        self.platform
    }
}

impl WindowsDeviceMonitor {
    /// Create a new WinRT monitor.
    pub fn new() -> (r: Self)
        ensures
            r.platform_name_spec() == "Windows (WinRT Native Async)"@,
    {
        WindowsDeviceMonitor { platform: "Windows (WinRT Native Async)" }
    }

    /// The platform name, as a character sequence.
    pub closed spec fn platform_name_spec(&self) -> Seq<char> {
        self.platform@
    }

    /// Get platform name.
    pub fn platform_name(&self) -> (r: &'static str)
        ensures
            r@ == self.platform_name_spec(),
    {
        self.platform
    }
}

/// Create the device monitor for this build: without native monitoring
/// compiled in, the polling monitor.
pub fn create_async_device_monitor() -> (r: CpalFallbackMonitor)
    ensures
        r.platform_name_spec() == fallback_platform_name(),
{
    CpalFallbackMonitor::new()
}

// ---------------------------------------------------------------------------
// Device lists
// ---------------------------------------------------------------------------

/// A field-by-field copy of a device description.
pub fn copy_device_info(d: &AsyncDeviceInfo) -> (r: AsyncDeviceInfo)
    ensures
        r == *d,
{
    AsyncDeviceInfo {
        id: d.id.clone(),
        name: d.name.clone(),
        is_default: d.is_default,
        is_available: d.is_available,
        sample_rate: d.sample_rate,
        channels: d.channels,
    }
}

/// The first device marked default, if any.
pub open spec fn first_default(devices: Seq<AsyncDeviceInfo>, i: int) -> bool {
    &&& 0 <= i < devices.len()
    &&& devices[i].is_default
    &&& forall|j: int| 0 <= j < i ==> !(#[trigger] devices[j]).is_default
}

/// The default device of a device list: the first one marked default.
pub fn find_default_device(devices: Vec<AsyncDeviceInfo>) -> (r: Result<
    AsyncDeviceInfo,
    DeviceMonitorError,
>)
    ensures
        match r {
            Ok(d) => exists|i: int| first_default(devices@, i) && d == devices@[i],
            Err(e) => (e matches DeviceMonitorError::DeviceNotFound(m) && m@
                == "No default device found"@) && forall|j: int|
                0 <= j < devices@.len() ==> !(#[trigger] devices@[j]).is_default,
        },
{
    let mut i: usize = 0;
    while i < devices.len()
        invariant
            i <= devices.len(),
            forall|j: int| 0 <= j < i ==> !(#[trigger] devices@[j]).is_default,
        decreases devices.len() - i,
    {
        if devices[i].is_default {
            let d = copy_device_info(&devices[i]);
            proof {
                assert(first_default(devices@, i as int));
            }
            return Ok(d);
        }
        i = i + 1;
    }
    Err(DeviceMonitorError::DeviceNotFound(String::from_str("No default device found")))
}

/// Whether a listed device has identifier `id` (and, when `require_available`
/// holds, is available).
pub open spec fn lists_id(d: AsyncDeviceInfo, id: Seq<char>, require_available: bool) -> bool {
    d.id@ == id && (!require_available || d.is_available)
}

/// Whether a device with identifier `device_id` is listed (and, when
/// `require_available` holds, available).
pub fn device_id_available(devices: &Vec<AsyncDeviceInfo>, device_id: &str, require_available: bool) -> (r:
    bool)
    ensures
        r == exists|i: int|
            0 <= i < devices@.len() && lists_id(#[trigger] devices@[i], device_id@, require_available),
{
    let mut i: usize = 0;
    while i < devices.len()
        invariant
            i <= devices.len(),
            forall|j: int| 0 <= j < i ==> !lists_id(#[trigger] devices@[j], device_id@, require_available),
        decreases devices.len() - i,
    {
        let d = &devices[i];
        if str_eq(d.id.as_str(), device_id) && (!require_available || d.is_available) {
            proof {
                assert(lists_id(devices@[i as int], device_id@, require_available));
            }
            return true;
        }
        i = i + 1;
    }
    false
}

/// Whether any device of a list is marked default.
pub open spec fn any_default(devices: Seq<AsyncDeviceInfo>) -> bool {
    exists|i: int| 0 <= i < devices.len() && (#[trigger] devices[i]).is_default
}

/// When no device of a non-empty list is marked default, mark the first one.
pub fn mark_fallback_default(devices: &mut Vec<AsyncDeviceInfo>)
    ensures
        final(devices)@.len() == old(devices)@.len(),
        if !any_default(old(devices)@) && old(devices)@.len() > 0 {
            final(devices)@ == old(devices)@.update(
                0,
                AsyncDeviceInfo { is_default: true, ..old(devices)@[0] },
            )
        } else {
            final(devices)@ == old(devices)@
        },
{
    let mut i: usize = 0;
    while i < devices.len()
        invariant
            i <= devices.len(),
            devices@ == old(devices)@,
            forall|j: int| 0 <= j < i ==> !(#[trigger] devices@[j]).is_default,
        decreases devices.len() - i,
    {
        if devices[i].is_default {
            return;
        }
        i = i + 1;
    }
    if devices.len() > 0 {
        let mut first = copy_device_info(&devices[0]);
        first.is_default = true;
        devices.set(0, first);
    }
}

// ---------------------------------------------------------------------------
// Polled device lists
// ---------------------------------------------------------------------------

/// A device seen in one poll of a host: its identifier and name.
#[derive(Debug, Clone)]
pub struct ListedDevice {
    /// Device identifier
    pub id: String,
    /// Device name
    pub name: String,
}

/// Some device of the list has the name.
pub open spec fn has_name(s: Seq<ListedDevice>, name: Seq<char>) -> bool {
    exists|i: int| 0 <= i < s.len() && (#[trigger] s[i]).name@ == name
}

/// The devices of `cur` whose name is not in `prev`, as added events.
pub open spec fn added_views(prev: Seq<ListedDevice>, cur: Seq<ListedDevice>) -> Seq<DeviceEventView>
    decreases cur.len(),
{
    if cur.len() == 0 {
        Seq::empty()
    } else {
        let rest = added_views(prev, cur.drop_last());
        let d = cur.last();
        if has_name(prev, d.name@) {
            rest
        } else {
            rest.push(DeviceEventView::DeviceAdded { id: d.id@, name: d.name@ })
        }
    }
}

/// The devices of `prev` whose name is not in `cur`, as removed events.
pub open spec fn removed_views(prev: Seq<ListedDevice>, cur: Seq<ListedDevice>) -> Seq<DeviceEventView>
    decreases prev.len(),
{
    if prev.len() == 0 {
        Seq::empty()
    } else {
        let rest = removed_views(prev.drop_last(), cur);
        let d = prev.last();
        if has_name(cur, d.name@) {
            rest
        } else {
            rest.push(DeviceEventView::DeviceRemoved { id: d.id@ })
        }
    }
}

fn has_name_exec(s: &Vec<ListedDevice>, name: &String) -> (r: bool)
    ensures
        r == has_name(s@, name@),
{
    let mut i: usize = 0;
    while i < s.len()
        invariant
            i <= s.len(),
            forall|j: int| 0 <= j < i ==> (#[trigger] s@[j]).name@ != name@,
        decreases s.len() - i,
    {
        if s[i].name == *name {
            return true;
        }
        i = i + 1;
    }
    false
}

/// Compare two polls of a host's devices, matching devices by name: every
/// device of the current poll that was not in the previous one is reported
/// added (in current order), then every device of the previous poll that is
/// gone is reported removed (in previous order).
pub fn detect_device_changes(previous: &Vec<ListedDevice>, current: &Vec<ListedDevice>) -> (r: Vec<
    DeviceEvent,
>)
    ensures
        events_view(r@) == added_views(previous@, current@) + removed_views(previous@, current@),
{
    let mut r: Vec<DeviceEvent> = Vec::new();
    let mut i: usize = 0;
    while i < current.len()
        invariant
            i <= current.len(),
            events_view(r@) == added_views(previous@, current@.subrange(0, i as int)),
        decreases current.len() - i,
    {
        let ghost before = current@.subrange(0, i as int);
        proof {
            assert(current@.subrange(0, i + 1).drop_last() =~= before);
        }
        let d = &current[i];
        if !has_name_exec(previous, &d.name) {
            let e = DeviceEvent::DeviceAdded { id: d.id.clone(), name: d.name.clone() };
            proof {
                lemma_events_view_push(r@, e);
            }
            r.push(e);
        }
        i = i + 1;
    }
    proof {
        assert(current@.subrange(0, current.len() as int) =~= current@);
    }
    let ghost added = events_view(r@);
    let mut j: usize = 0;
    while j < previous.len()
        invariant
            j <= previous.len(),
            added == added_views(previous@, current@),
            events_view(r@) == added + removed_views(previous@.subrange(0, j as int), current@),
        decreases previous.len() - j,
    {
        let ghost before = previous@.subrange(0, j as int);
        proof {
            assert(previous@.subrange(0, j + 1).drop_last() =~= before);
        }
        let d = &previous[j];
        if !has_name_exec(current, &d.name) {
            let e = DeviceEvent::DeviceRemoved { id: d.id.clone() };
            proof {
                lemma_events_view_push(r@, e);
                assert(added + removed_views(before, current@).push(e@) =~= (added + removed_views(
                    before,
                    current@,
                )).push(e@));
            }
            r.push(e);
        }
        j = j + 1;
    }
    proof {
        assert(previous@.subrange(0, previous.len() as int) =~= previous@);
    }
    r
}

proof fn lemma_added_views_none(prev: Seq<ListedDevice>, cur: Seq<ListedDevice>)
    requires
        forall|i: int| 0 <= i < cur.len() ==> has_name(prev, (#[trigger] cur[i]).name@),
    ensures
        added_views(prev, cur) == Seq::<DeviceEventView>::empty(),
    decreases cur.len(),
{
    if cur.len() > 0 {
        let c = cur.drop_last();
        assert forall|i: int| 0 <= i < c.len() implies has_name(prev, (#[trigger] c[i]).name@) by {
            assert(c[i] == cur[i]);
        }
        lemma_added_views_none(prev, c);
        assert(has_name(prev, cur[cur.len() - 1].name@));
    }
}

proof fn lemma_removed_views_none(prev: Seq<ListedDevice>, cur: Seq<ListedDevice>)
    requires
        forall|i: int| 0 <= i < prev.len() ==> has_name(cur, (#[trigger] prev[i]).name@),
    ensures
        removed_views(prev, cur) == Seq::<DeviceEventView>::empty(),
    decreases prev.len(),
{
    if prev.len() > 0 {
        let p = prev.drop_last();
        assert forall|i: int| 0 <= i < p.len() implies has_name(cur, (#[trigger] p[i]).name@) by {
            assert(p[i] == prev[i]);
        }
        lemma_removed_views_none(p, cur);
        assert(has_name(cur, prev[prev.len() - 1].name@));
    }
}

/// Two polls that list the same devices report no change.
pub proof fn lemma_unchanged_poll_reports_nothing(s: Seq<ListedDevice>)
    ensures
        added_views(s, s) + removed_views(s, s) == Seq::<DeviceEventView>::empty(),
{
    assert forall|i: int| 0 <= i < s.len() implies has_name(s, (#[trigger] s[i]).name@) by {}
    lemma_added_views_none(s, s);
    lemma_removed_views_none(s, s);
    assert(Seq::<DeviceEventView>::empty() + Seq::<DeviceEventView>::empty() =~= Seq::<
        DeviceEventView,
    >::empty());
}

/// The list seen before poll `k` of a sequence of polls: nothing before
/// the first poll, else the previous poll's list.
pub open spec fn list_before(polls: Seq<Seq<ListedDevice>>, k: int) -> Seq<ListedDevice> {
    if k == 0 {
        Seq::empty()
    } else {
        polls[k - 1]
    }
}

/// The events reported after poll `k` of a sequence of polls.
pub open spec fn poll_events(polls: Seq<Seq<ListedDevice>>, k: int) -> Seq<DeviceEventView> {
    added_views(list_before(polls, k), polls[k]) + removed_views(list_before(polls, k), polls[k])
}

/// The events of a sequence of polls started with no device known: after
/// each poll, what [`detect_device_changes`] reports against the previous
/// poll (against an empty list for the first poll).
pub fn detect_changes_over_polls(polls: &Vec<Vec<ListedDevice>>) -> (r: Vec<Vec<DeviceEvent>>)
    ensures
        r@.len() == polls@.len(),
        forall|k: int|
            0 <= k < r@.len() ==> events_view(#[trigger] r@[k]@) == poll_events(
                Seq::new(polls@.len(), |i: int| polls@[i]@),
                k,
            ),
{
    let ghost ps = Seq::new(polls@.len(), |i: int| polls@[i]@);
    let mut r: Vec<Vec<DeviceEvent>> = Vec::new();
    let empty: Vec<ListedDevice> = Vec::new();
    let mut k: usize = 0;
    while k < polls.len()
        invariant
            k <= polls.len(),
            ps == Seq::new(polls@.len(), |i: int| polls@[i]@),
            empty@ == Seq::<ListedDevice>::empty(),
            r@.len() == k,
            forall|j: int| 0 <= j < k ==> events_view(#[trigger] r@[j]@) == poll_events(ps, j),
        decreases polls.len() - k,
    {
        let events = if k == 0 {
            detect_device_changes(&empty, &polls[0])
        } else {
            detect_device_changes(&polls[k - 1], &polls[k])
        };
        r.push(events);
        k = k + 1;
    }
    r
}

proof fn lemma_added_from_nothing(cur: Seq<ListedDevice>)
    ensures
        added_views(Seq::empty(), cur) == Seq::new(
            cur.len(),
            |i: int| DeviceEventView::DeviceAdded { id: cur[i].id@, name: cur[i].name@ },
        ),
    decreases cur.len(),
{
    if cur.len() > 0 {
        lemma_added_from_nothing(cur.drop_last());
        assert(!has_name(Seq::<ListedDevice>::empty(), cur.last().name@));
        assert(added_views(Seq::empty(), cur) =~= Seq::new(
            cur.len(),
            |i: int| DeviceEventView::DeviceAdded { id: cur[i].id@, name: cur[i].name@ },
        ));
    } else {
        assert(added_views(Seq::empty(), cur) =~= Seq::new(
            cur.len(),
            |i: int| DeviceEventView::DeviceAdded { id: cur[i].id@, name: cur[i].name@ },
        ));
    }
}

/// The first poll reports every device it sees as added, in the order
/// seen, and nothing removed.
pub proof fn lemma_first_poll_adds_everything(polls: Seq<Seq<ListedDevice>>)
    requires
        polls.len() > 0,
    ensures
        poll_events(polls, 0) == Seq::new(
            polls[0].len(),
            |i: int| DeviceEventView::DeviceAdded { id: polls[0][i].id@, name: polls[0][i].name@ },
        ),
{
    lemma_added_from_nothing(polls[0]);
    assert(removed_views(Seq::<ListedDevice>::empty(), polls[0]) == Seq::<DeviceEventView>::empty());
    assert(poll_events(polls, 0) =~= added_views(Seq::empty(), polls[0]));
}

/// A poll that sees the same devices as the one before it reports
/// nothing.
pub proof fn lemma_repeated_poll_is_quiet(polls: Seq<Seq<ListedDevice>>, k: int)
    requires
        0 < k < polls.len(),
        polls[k] == polls[k - 1],
    ensures
        poll_events(polls, k) == Seq::<DeviceEventView>::empty(),
{
    lemma_unchanged_poll_reports_nothing(polls[k]);
}

// ---------------------------------------------------------------------------
// Registry of audio sinks
// ---------------------------------------------------------------------------

/// The properties of a registry object that the sink rules read.
#[derive(Debug, Clone)]
pub struct NodeProps {
    /// `media.class`
    pub media_class: Option<String>,
    /// `node.description`
    pub node_description: Option<String>,
    /// `node.name`
    pub node_name: Option<String>,
    /// `audio.rate`
    pub audio_rate: Option<String>,
    /// `audio.channels`
    pub audio_channels: Option<String>,
}

/// An object is an audio output when its media class contains `Audio/Sink`.
pub open spec fn is_audio_sink(p: NodeProps) -> bool {
    p.media_class matches Some(c) && seq_contains(c@, "Audio/Sink"@)
}

/// The name shown for a sink: its description, else its node name, else
/// `Unknown Device`.
pub open spec fn sink_display_name(p: NodeProps) -> Seq<char> {
    match p.node_description {
        Some(d) => d@,
        None => match p.node_name {
            Some(n) => n@,
            None => "Unknown Device"@,
        },
    }
}

/// The node name of a sink (empty when it has none).
pub open spec fn sink_node_name(p: NodeProps) -> Seq<char> {
    match p.node_name {
        Some(n) => n@,
        None => Seq::empty(),
    }
}

/// The node names that stand for the default sink.
pub open spec fn is_default_sink_marker(node_name: Seq<char>) -> bool {
    node_name == "@DEFAULT_SINK@"@ || node_name == "@DEFAULT_AUDIO_SINK@"@
}

/// The sinks a registry listener knows, by object id: name and whether it
/// was the default.
pub struct SinkRegistry {
    known: std::collections::HashMap<u32, (String, bool)>,
}

/// A registry's contents, with names as character sequences.
pub type SinkMap = Map<u32, (Seq<char>, bool)>;

/// The registry after an object is announced.
pub open spec fn after_global(m: SinkMap, id: u32, p: NodeProps) -> SinkMap {
    if is_audio_sink(p) {
        m.insert(id, (sink_display_name(p), is_default_sink_marker(sink_node_name(p))))
    } else {
        m
    }
}

/// The events reported when an object is announced.
pub open spec fn global_events(id: u32, p: NodeProps) -> Seq<DeviceEventView> {
    if is_audio_sink(p) {
        let added = DeviceEventView::DeviceAdded { id: decimal(id as nat), name: sink_display_name(p) };
        if is_default_sink_marker(sink_node_name(p)) {
            seq![
                added,
                DeviceEventView::DefaultDeviceChanged {
                    id: decimal(id as nat),
                    name: sink_display_name(p),
                },
            ]
        } else {
            seq![added]
        }
    } else {
        Seq::empty()
    }
}

/// The registry after an object is removed.
pub open spec fn after_global_remove(m: SinkMap, id: u32) -> SinkMap {
    m.remove(id)
}

/// The events reported when an object is removed: only known sinks are
/// reported.
pub open spec fn global_remove_events(m: SinkMap, id: u32) -> Seq<DeviceEventView> {
    if m.contains_key(id) {
        seq![DeviceEventView::DeviceRemoved { id: decimal(id as nat) }]
    } else {
        Seq::empty()
    }
}

impl SinkRegistry {
    /// The known sinks.
    pub closed spec fn view(&self) -> SinkMap {
        self.known@.map_values(|v: (String, bool)| (v.0@, v.1))
    }

    /// A registry that knows no sink.
    pub fn new() -> (r: Self)
        ensures
            r.view() == SinkMap::empty(),
    {
        let r = SinkRegistry { known: std::collections::HashMap::new() };
        proof {
            assert(r.view() =~= SinkMap::empty());
        }
        r
    }

    /// Record an announced registry object and return the events it causes:
    /// an audio sink is remembered (replacing what was known under its id)
    /// and reported added, and also reported as the new default when its
    /// node name is a default-sink marker.
    pub fn on_global(&mut self, id: u32, props: &NodeProps) -> (r: Vec<DeviceEvent>)
        ensures
            final(self).view() == after_global(old(self).view(), id, *props),
            events_view(r@) == global_events(id, *props),
    {
        let mut r: Vec<DeviceEvent> = Vec::new();
        let is_sink = match &props.media_class {
            Some(c) => str_contains(c.as_str(), "Audio/Sink"),
            None => false,
        };
        if !is_sink {
            proof {
                assert(events_view(r@) =~= global_events(id, *props));
            }
            return r;
        }
        let name: String = match &props.node_description {
            Some(d) => d.clone(),
            None => match &props.node_name {
                Some(n) => n.clone(),
                None => String::from_str("Unknown Device"),
            },
        };
        let is_default = match &props.node_name {
            Some(n) => str_eq(n.as_str(), "@DEFAULT_SINK@") || str_eq(n.as_str(), "@DEFAULT_AUDIO_SINK@"),
            None => {
                proof {
                    assert(!("@DEFAULT_SINK@"@ =~= Seq::<char>::empty())) by {
                        reveal_strlit("@DEFAULT_SINK@");
                    }
                    assert(!("@DEFAULT_AUDIO_SINK@"@ =~= Seq::<char>::empty())) by {
                        reveal_strlit("@DEFAULT_AUDIO_SINK@");
                    }
                }
                false
            },
        };
        let ghost old_known = self.known@;
        self.known.insert(id, (name.clone(), is_default));
        proof {
            assert(self.view() =~= after_global(old(self).view(), id, *props));
        }
        let id_text = u64_to_decimal(id as u64);
        let added = DeviceEvent::DeviceAdded { id: id_text.clone(), name: name.clone() };
        proof {
            lemma_events_view_push(r@, added);
        }
        r.push(added);
        if is_default {
            let changed = DeviceEvent::DefaultDeviceChanged { id: id_text, name };
            proof {
                lemma_events_view_push(r@, changed);
            }
            r.push(changed);
        }
        proof {
            assert(events_view(r@) =~= global_events(id, *props));
        }
        r
    }

    /// Record a removed registry object and return the events it causes: a
    /// known sink is forgotten and reported removed; other objects are
    /// ignored.
    pub fn on_global_remove(&mut self, id: u32) -> (r: Vec<DeviceEvent>)
        ensures
            final(self).view() == after_global_remove(old(self).view(), id),
            events_view(r@) == global_remove_events(old(self).view(), id),
    {
        let mut r: Vec<DeviceEvent> = Vec::new();
        let removed = self.known.remove(&id);
        proof {
            assert(self.view() =~= after_global_remove(old(self).view(), id));
        }
        match removed {
            Some(_) => {
                let e = DeviceEvent::DeviceRemoved { id: u64_to_decimal(id as u64) };
                proof {
                    lemma_events_view_push(r@, e);
                }
                r.push(e);
            },
            None => {},
        }
        proof {
            assert(events_view(r@) =~= global_remove_events(old(self).view(), id));
        }
        r
    }
}

/// Removing a sink that was just announced restores the registry to what it
/// was before the announcement, and the removal is reported under the id
/// the announcement used.
pub proof fn lemma_remove_undoes_announce(m: SinkMap, id: u32, p: NodeProps)
    requires
        !m.contains_key(id),
        is_audio_sink(p),
    ensures
        after_global_remove(after_global(m, id, p), id) == m,
        global_remove_events(after_global(m, id, p), id) == seq![
            DeviceEventView::DeviceRemoved { id: decimal(id as nat) },
        ],
        global_events(id, p)[0] == (DeviceEventView::DeviceAdded {
            id: decimal(id as nat),
            name: sink_display_name(p),
        }),
{
    assert(after_global_remove(after_global(m, id, p), id) =~= m);
}

/// Removing an object the registry does not know changes nothing and
/// reports nothing.
pub proof fn lemma_remove_unknown_is_silent(m: SinkMap, id: u32)
    requires
        !m.contains_key(id),
    ensures
        after_global_remove(m, id) == m,
        global_remove_events(m, id) == Seq::<DeviceEventView>::empty(),
{
    assert(after_global_remove(m, id) =~= m);
}

/// The device information an enumeration gives for a sink: its sample rate
/// and channel count when the properties parse, marked default when its node
/// name is the default sink's name.
pub open spec fn pipewire_sink_info_spec(
    id: u32,
    p: NodeProps,
    default_sink: Option<String>,
    r: AsyncDeviceInfo,
) -> bool {
    &&& r.id@ == decimal(id as nat)
    &&& r.name@ == sink_display_name(p)
    &&& r.is_default == (default_sink matches Some(d) && d@ == sink_node_name(p))
    &&& r.is_available
    &&& r.sample_rate == match p.audio_rate {
        Some(s) => parse_u32_spec(s@),
        None => None,
    }
    &&& r.channels == match p.audio_channels {
        Some(s) => match parse_u32_spec(s@) {
            Some(v) => if v <= u16::MAX {
                Some(v as u16)
            } else {
                None
            },
            None => None,
        },
        None => None,
    }
}

/// The device information for a registry object, when it is an audio sink.
pub fn pipewire_sink_info(id: u32, props: &NodeProps, default_sink: &Option<String>) -> (r: Option<
    AsyncDeviceInfo,
>)
    ensures
        match r {
            Some(d) => is_audio_sink(*props) && pipewire_sink_info_spec(id, *props, *default_sink, d),
            None => !is_audio_sink(*props),
        },
{
    let is_sink = match &props.media_class {
        Some(c) => str_contains(c.as_str(), "Audio/Sink"),
        None => false,
    };
    if !is_sink {
        return None;
    }
    let name: String = match &props.node_description {
        Some(d) => d.clone(),
        None => match &props.node_name {
            Some(n) => n.clone(),
            None => String::from_str("Unknown Device"),
        },
    };
    let node_name: String = match &props.node_name {
        Some(n) => n.clone(),
        None => String::new(),
    };
    let sample_rate = match &props.audio_rate {
        Some(s) => parse_u32(s.as_str()),
        None => None,
    };
    let channels: Option<u16> = match &props.audio_channels {
        Some(s) => match parse_u32(s.as_str()) {
            Some(v) => if v <= 65535 {
                Some(v as u16)
            } else {
                None
            },
            None => None,
        },
        None => None,
    };
    let is_default = match default_sink {
        Some(d) => *d == node_name,
        None => false,
    };
    Some(
        AsyncDeviceInfo {
            id: u64_to_decimal(id as u64),
            name,
            is_default,
            is_available: true,
            sample_rate,
            channels,
        },
    )
}

/// The positions, in announcement order, of the registry objects that are
/// audio sinks.
pub open spec fn sink_positions(g: Seq<(u32, NodeProps)>) -> Seq<int>
    decreases g.len(),
{
    if g.len() == 0 {
        Seq::empty()
    } else {
        let rest = sink_positions(g.drop_last());
        if is_audio_sink(g.last().1) {
            rest.push(g.len() - 1)
        } else {
            rest
        }
    }
}

proof fn lemma_sink_positions_in_range(g: Seq<(u32, NodeProps)>)
    ensures
        forall|k: int|
            0 <= k < sink_positions(g).len() ==> 0 <= #[trigger] sink_positions(g)[k] < g.len()
                && is_audio_sink(g[sink_positions(g)[k]].1),
    decreases g.len(),
{
    if g.len() > 0 {
        let h = g.drop_last();
        lemma_sink_positions_in_range(h);
        assert forall|k: int| 0 <= k < sink_positions(h).len() implies g[sink_positions(h)[k]] == h[sink_positions(h)[k]] by {}
    }
}

/// Whether the sink at position `k` of an enumeration has the default
/// sink's node name exactly.
pub open spec fn matches_default_sink(g: Seq<(u32, NodeProps)>, default_sink: Option<String>, k: int) -> bool {
    default_sink matches Some(d) && d@ == sink_node_name(g[sink_positions(g)[k]].1)
}

/// The devices an enumeration of the registry lists: one per audio sink, in
/// announcement order, each as [`pipewire_sink_info_spec`] describes it; a
/// device is default when its node name is exactly the default sink's
/// name, and when none is, the first device is marked default.
pub open spec fn enumerated(g: Seq<(u32, NodeProps)>, default_sink: Option<String>, r: Seq<AsyncDeviceInfo>) -> bool {
    &&& r.len() == sink_positions(g).len()
    &&& forall|k: int|
        0 <= k < r.len() ==> pipewire_sink_info_spec(
            g[sink_positions(g)[k]].0,
            g[sink_positions(g)[k]].1,
            default_sink,
            AsyncDeviceInfo { is_default: matches_default_sink(g, default_sink, k), ..#[trigger] r[k] },
        )
    &&& forall|k: int|
        0 <= k < r.len() ==> (#[trigger] r[k]).is_default == (matches_default_sink(g, default_sink, k)
            || (k == 0 && forall|j: int| 0 <= j < r.len() ==> !matches_default_sink(g, default_sink, j)))
}

/// List the audio sinks among the registry objects announced, as device
/// information (see [`enumerated`]): every device listed is available, a
/// non-empty list has a default device, and a device is default only by an
/// exact node-name match or as the first device when none matches.
pub fn enumerate_sinks(globals: &Vec<(u32, NodeProps)>, default_sink: &Option<String>) -> (r: Vec<
    AsyncDeviceInfo,
>)
    ensures
        enumerated(globals@, *default_sink, r@),
        forall|k: int| 0 <= k < r@.len() ==> (#[trigger] r@[k]).is_available,
        r@.len() > 0 ==> any_default(r@),
{
    let ghost g = globals@;
    let mut r: Vec<AsyncDeviceInfo> = Vec::new();
    let mut i: usize = 0;
    while i < globals.len()
        invariant
            g == globals@,
            i <= globals.len(),
            r@.len() == sink_positions(g.take(i as int)).len(),
            forall|k: int|
                0 <= k < r@.len() ==> #[trigger] sink_positions(g.take(i as int))[k] < i
                    && pipewire_sink_info_spec(
                    g[sink_positions(g.take(i as int))[k]].0,
                    g[sink_positions(g.take(i as int))[k]].1,
                    *default_sink,
                    r@[k],
                ),
        decreases globals.len() - i,
    {
        let ghost before = g.take(i as int);
        proof {
            assert(g.take(i + 1).drop_last() =~= before);
            lemma_sink_positions_in_range(before);
        }
        let (id, props) = &globals[i];
        let info = pipewire_sink_info(*id, props, default_sink);
        match info {
            Some(d) => {
                r.push(d);
            },
            None => {},
        }
        proof {
            let now = g.take(i + 1);
            assert forall|k: int| 0 <= k < sink_positions(before).len() implies sink_positions(
                before,
            )[k] < i && #[trigger] now[sink_positions(before)[k]] == g[sink_positions(before)[k]] by {}
        }
        i = i + 1;
    }
    proof {
        assert(g.take(globals.len() as int) =~= g);
    }
    let ghost base = r@;
    mark_fallback_default(&mut r);
    proof {
        lemma_sink_positions_in_range(g);
        assert forall|k: int| 0 <= k < base.len() implies (#[trigger] base[k]).is_default
            == matches_default_sink(g, *default_sink, k) by {
            assert(sink_positions(g.take(globals.len() as int))[k] < globals.len());
        }
        if base.len() > 0 && !any_default(base) {
            assert(r@[0].is_default);
        }
    }
    r
}

// ---------------------------------------------------------------------------
// Device watcher and property listener notifications
// ---------------------------------------------------------------------------

/// The name shown for a device whose name could not be read.
pub open spec fn shown_name(name: Option<String>) -> Seq<char> {
    match name {
        Some(n) => n@,
        None => "Unknown Device"@,
    }
}

/// Whether `id` is the current default device's identifier.
pub open spec fn is_current_default(default_id: Option<String>, id: Seq<char>) -> bool {
    default_id matches Some(d) && d@ == id
}

/// Whether a device list was read and lists identifier `id`.
pub open spec fn list_has_id(devices: Option<Vec<ListedDevice>>, id: Seq<char>) -> bool {
    match devices {
        Some(ds) => exists|i: int| 0 <= i < ds@.len() && (#[trigger] ds@[i]).id@ == id,
        None => false,
    }
}

/// The events for a device a watcher reports added: it is reported added,
/// and also as the new default when it is the current default device.
pub fn watcher_added_events(id: &String, name: &Option<String>, default_id: &Option<String>) -> (r:
    Vec<DeviceEvent>)
    ensures
        events_view(r@) == if is_current_default(*default_id, id@) {
            seq![
                DeviceEventView::DeviceAdded { id: id@, name: shown_name(*name) },
                DeviceEventView::DefaultDeviceChanged { id: id@, name: shown_name(*name) },
            ]
        } else {
            seq![DeviceEventView::DeviceAdded { id: id@, name: shown_name(*name) }]
        },
{
    let shown: String = match name {
        Some(n) => n.clone(),
        None => String::from_str("Unknown Device"),
    };
    let mut r: Vec<DeviceEvent> = Vec::new();
    let added = DeviceEvent::DeviceAdded { id: id.clone(), name: shown.clone() };
    proof {
        lemma_events_view_push(r@, added);
    }
    r.push(added);
    let is_default = match default_id {
        Some(d) => *d == *id,
        None => false,
    };
    if is_default {
        let changed = DeviceEvent::DefaultDeviceChanged { id: id.clone(), name: shown };
        proof {
            lemma_events_view_push(r@, changed);
        }
        r.push(changed);
    }
    proof {
        assert(events_view(r@) =~= if is_current_default(*default_id, id@) {
            seq![
                DeviceEventView::DeviceAdded { id: id@, name: shown_name(*name) },
                DeviceEventView::DefaultDeviceChanged { id: id@, name: shown_name(*name) },
            ]
        } else {
            seq![DeviceEventView::DeviceAdded { id: id@, name: shown_name(*name) }]
        });
    }
    r
}

/// Index `i` is the first listed device with identifier `id`.
pub open spec fn first_listed_id(devices: Seq<ListedDevice>, id: Seq<char>, i: int) -> bool {
    &&& 0 <= i < devices.len()
    &&& devices[i].id@ == id
    &&& forall|j: int| 0 <= j < i ==> (#[trigger] devices[j]).id@ != id
}

/// The events for a device a watcher reports updated: when it is the
/// current default device and the device list (read again) lists it, it is
/// reported as the new default under its listed name; it is always reported
/// as having changed properties.
pub fn watcher_updated_events(
    id: &String,
    default_id: &Option<String>,
    devices: &Option<Vec<ListedDevice>>,
) -> (r: Vec<DeviceEvent>)
    ensures
        ({
            let prop = DeviceEventView::DevicePropertyChanged {
                id: id@,
                property: "device_properties"@,
            };
            if is_current_default(*default_id, id@) && list_has_id(*devices, id@) {
                devices matches Some(ds) && exists|i: int|
                    first_listed_id(ds@, id@, i) && events_view(r@) == seq![
                        DeviceEventView::DefaultDeviceChanged { id: id@, name: ds@[i].name@ },
                        prop,
                    ]
            } else {
                events_view(r@) == seq![prop]
            }
        }),
{
    let mut r: Vec<DeviceEvent> = Vec::new();
    let is_default = match default_id {
        Some(d) => *d == *id,
        None => false,
    };
    if is_default {
        match devices {
            Some(ds) => {
                let mut i: usize = 0;
                while i < ds.len()
                    invariant_except_break
                        r@.len() == 0,
                    invariant
                        i <= ds.len(),
                        forall|j: int| 0 <= j < i ==> (#[trigger] ds@[j]).id@ != id@,
                    ensures
                        (r@.len() == 0 && forall|j: int|
                            0 <= j < ds@.len() ==> (#[trigger] ds@[j]).id@ != id@) || exists|k: int|
                            first_listed_id(ds@, id@, k) && events_view(r@) == seq![
                                DeviceEventView::DefaultDeviceChanged {
                                    id: id@,
                                    name: ds@[k].name@,
                                },
                            ],
                    decreases ds.len() - i,
                {
                    if ds[i].id == *id {
                        let e = DeviceEvent::DefaultDeviceChanged {
                            id: id.clone(),
                            name: ds[i].name.clone(),
                        };
                        proof {
                            lemma_events_view_push(r@, e);
                            assert(first_listed_id(ds@, id@, i as int));
                            assert(events_view(r@.push(e)) =~= seq![
                                DeviceEventView::DefaultDeviceChanged {
                                    id: id@,
                                    name: ds@[i as int].name@,
                                },
                            ]);
                        }
                        r.push(e);
                        break;
                    }
                    i = i + 1;
                }
            },
            None => {},
        }
    }
    let ghost before = r@;
    let prop = DeviceEvent::DevicePropertyChanged {
        id: id.clone(),
        property: String::from_str("device_properties"),
    };
    proof {
        lemma_events_view_push(r@, prop);
    }
    r.push(prop);
    proof {
        if r@.len() == 1 {
            assert(events_view(r@) =~= seq![prop@]);
        } else {
            assert(events_view(r@) =~= events_view(before).push(prop@));
        }
    }
    r
}

/// What happens when the default-output property reports a change: when the
/// default device differs from the one last seen, it becomes the last seen,
/// and it is reported as the new default when there is one and its name
/// could be read.
pub fn default_device_change(previous: Option<u32>, current: Option<u32>, current_name: &Option<String>) -> (r: (
    Option<u32>,
    Option<DeviceEvent>,
))
    ensures
        if current == previous {
            r.0 == previous && r.1 is None
        } else {
            r.0 == current && match (current, current_name) {
                (Some(id), Some(n)) => r.1 matches Some(e) && e@ == (DeviceEventView::DefaultDeviceChanged {
                    id: decimal(id as nat),
                    name: n@,
                }),
                _ => r.1 is None,
            }
        },
{
    if current == previous {
        return (previous, None);
    }
    let event = match (current, current_name) {
        (Some(id), Some(n)) => Some(
            DeviceEvent::DefaultDeviceChanged { id: u64_to_decimal(id as u64), name: n.clone() },
        ),
        _ => None,
    };
    (current, event)
}

} // verus!
