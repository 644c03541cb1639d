//! Playback settings and the device-switch procedure.
//!
//! The switch itself (stopping the old stream, opening a new one, reloading
//! the source) is carried out by the caller; the state machine that guards
//! it, and each decision the procedure takes, are here.

use vstd::prelude::*;

use std::time::Duration;

use crate::backend::AudioBackend;
use crate::dsd::duration_value;
use crate::text::{
    all_ascii, ascii_lower, decimal, err_text, is_prefix, parse_u32, parse_u32_spec, str_eq,
    str_starts_with, str_to_lowercase, u64_to_decimal, unicode_lowercase,
};

verus! {

// ---------------------------------------------------------------------------
// Device switch state machine
// ---------------------------------------------------------------------------

/// Reasons for device switching.
#[derive(Debug, Clone, Copy, PartialEq, Eq, Structural)]
pub enum DeviceSwitchReason {
    /// User requested device change
    UserRequested,
    /// Current device was disconnected (hot-unplug)
    DeviceDisconnected,
    /// System default device changed
    DefaultDeviceChanged,
    /// Sample rate mismatch detected
    SampleRateMismatch,
    /// Device error recovery
    ErrorRecovery,
}

impl DeviceSwitchReason {
    /// The text of a reason.
    pub open spec fn spec_text(self) -> Seq<char> {
        match self {
            DeviceSwitchReason::UserRequested => "user_requested"@,
            DeviceSwitchReason::DeviceDisconnected => "device_disconnected"@,
            DeviceSwitchReason::DefaultDeviceChanged => "default_device_changed"@,
            DeviceSwitchReason::SampleRateMismatch => "sample_rate_mismatch"@,
            DeviceSwitchReason::ErrorRecovery => "error_recovery"@,
        }
    }

    /// The reason as text.
    pub fn as_str(&self) -> (r: &'static str)
        ensures
            r@ == self.spec_text(),
    {
        match self {
            DeviceSwitchReason::UserRequested => "user_requested",
            DeviceSwitchReason::DeviceDisconnected => "device_disconnected",
            DeviceSwitchReason::DefaultDeviceChanged => "default_device_changed",
            DeviceSwitchReason::SampleRateMismatch => "sample_rate_mismatch",
            DeviceSwitchReason::ErrorRecovery => "error_recovery",
        }
    }

    /// The reason as an owned string.
    pub fn to_string(&self) -> (r: String)
        ensures
            r@ == self.spec_text(),
    {
        String::from_str(self.as_str())
    }
}

/// Device switch state machine.
#[derive(Debug, PartialEq, Eq)]
pub enum DeviceSwitchState {
    /// Normal operation, no switch in progress
    Idle,
    /// Fadeout in progress before switch
    FadingOut {
        /// Target device for switch
        target_device: Option<String>,
        /// Target backend
        target_backend: AudioBackend,
        /// Reason for switch
        reason: DeviceSwitchReason,
        /// Samples remaining in fadeout
        samples_remaining: usize,
    },
    /// Switching to new device (stream recreation)
    Switching {
        /// Target device for switch
        target_device: Option<String>,
        /// Target backend
        target_backend: AudioBackend,
        /// Reason for switch
        reason: DeviceSwitchReason,
        /// Playback position to restore
        saved_position: Duration,
        /// Whether playback was active before switch
        was_playing: bool,
    },
    /// Fadein in progress after switch
    FadingIn {
        /// New device name
        device_name: String,
        /// Samples remaining in fadein
        samples_remaining: usize,
    },
    /// Recovery mode after failed switch
    Recovering {
        /// Number of retry attempts
        retry_count: u32,
        /// Last error message
        last_error: String,
        /// Original position to restore
        saved_position: Duration,
    },
}

impl Default for DeviceSwitchState {
    fn default() -> (r: Self)
        ensures
            r == DeviceSwitchState::Idle,
    {
        DeviceSwitchState::Idle
    }
}

/// A switch may start when none is in progress or a failed one is being
/// recovered from.
pub open spec fn may_start_switch(s: DeviceSwitchState) -> bool {
    s is Idle || s is Recovering
}

/// The target device of a switch in progress, when it names one.
pub open spec fn switch_target(s: DeviceSwitchState) -> Option<Seq<char>> {
    match s {
        DeviceSwitchState::FadingOut { target_device: Some(d), .. } => Some(d@),
        DeviceSwitchState::Switching { target_device: Some(d), .. } => Some(d@),
        _ => None,
    }
}

impl DeviceSwitchState {
    /// Check if a switch is currently in progress.
    pub fn is_switching(&self) -> (r: bool)
        ensures
            r == !(*self is Idle),
    {
        !matches!(self, DeviceSwitchState::Idle)
    }

    /// Check if we can start a new switch.
    pub fn can_start_switch(&self) -> (r: bool)
        ensures
            r == may_start_switch(*self),
    {
        matches!(self, DeviceSwitchState::Idle | DeviceSwitchState::Recovering { .. })
    }

    /// Get the target device if currently switching.
    pub fn target_device(&self) -> (r: Option<&str>)
        ensures
            match r {
                Some(d) => switch_target(*self) == Some(d@),
                None => switch_target(*self) is None,
            },
    {
        match self {
            DeviceSwitchState::FadingOut { target_device, .. } => match target_device {
                Some(d) => Some(d.as_str()),
                None => None,
            },
            DeviceSwitchState::Switching { target_device, .. } => match target_device {
                Some(d) => Some(d.as_str()),
                None => None,
            },
            _ => None,
        }
    }
}

/// Configuration for device switch behavior.
#[derive(Debug, Clone, Copy, PartialEq, Eq, Structural)]
pub struct DeviceSwitchConfig {
    /// Duration of fadeout before switch (in milliseconds)
    pub fadeout_ms: u32,
    /// Duration of fadein after switch (in milliseconds)
    pub fadein_ms: u32,
    /// Maximum retry attempts for failed switches
    pub max_retries: u32,
    /// Delay between retry attempts (in milliseconds)
    pub retry_delay_ms: u32,
    /// Whether to automatically fallback to default device on failure
    pub auto_fallback: bool,
}

impl Default for DeviceSwitchConfig {
    /// 50 ms fadeout, 30 ms fadein, three retries 100 ms apart, falling back
    /// to the default device.
    fn default() -> (r: Self)
        ensures
            r == (DeviceSwitchConfig {
                fadeout_ms: 50,
                fadein_ms: 30,
                max_retries: 3,
                retry_delay_ms: 100,
                auto_fallback: true,
            }),
    {
        DeviceSwitchConfig {
            fadeout_ms: 50,
            fadein_ms: 30,
            max_retries: 3,
            retry_delay_ms: 100,
            auto_fallback: true,
        }
    }
}

/// The message a switch request gets while another switch is in progress.
pub open spec fn switch_in_progress_message() -> Seq<char> {
    "Device switch already in progress"@
}

/// Start a device switch: refused while another switch is in progress;
/// otherwise the state becomes `Switching` towards the requested device,
/// remembering the position and whether playback was running.
pub fn begin_switch(
    state: &DeviceSwitchState,
    backend: AudioBackend,
    device_name: Option<String>,
    reason: DeviceSwitchReason,
    saved_position: Duration,
    was_playing: bool,
) -> (r: Result<DeviceSwitchState, String>)
    ensures
        may_start_switch(*state) ==> r == Ok::<DeviceSwitchState, String>(
            DeviceSwitchState::Switching {
                target_device: device_name,
                target_backend: backend,
                reason,
                saved_position,
                was_playing,
            },
        ),
        !may_start_switch(*state) ==> err_text(r) == Some(switch_in_progress_message()),
{
    if !state.can_start_switch() {
        return Err(String::from_str("Device switch already in progress"));
    }
    Ok(
        DeviceSwitchState::Switching {
            target_device: device_name,
            target_backend: backend,
            reason,
            saved_position,
            was_playing,
        },
    )
}

/// How a switch target is shown: the device name, or `default`.
pub fn switch_target_display(device_name: &Option<String>) -> (r: String)
    ensures
        r@ == match device_name {
            Some(n) => n@,
            None => "default"@,
        },
{
    match device_name {
        Some(n) => n.clone(),
        None => String::from_str("default"),
    }
}

/// How long the driver is given to release the old stream before a new one
/// is opened, in milliseconds.
pub fn cleanup_delay_ms(backend: AudioBackend) -> (r: u64)
    ensures
        r == 50,
{
    match backend {
        AudioBackend::Default => 50,
    }
}

/// What the procedure does when the new stream could not be opened.
#[derive(Debug, PartialEq, Eq)]
pub struct SwitchFailurePlan {
    /// The state entered.
    pub state: DeviceSwitchState,
    /// Whether the failure report says a fallback is attempted.
    pub fallback_attempted: bool,
    /// Whether the switch is retried on the default device.
    pub retry_on_default: bool,
    /// The state the machine settles in after the failure report, before
    /// the error is returned or the switch is retried on the default device.
    pub settled_state: DeviceSwitchState,
}

/// Decide what follows a failed stream creation: the state becomes
/// `Recovering` (no retry yet, the error, the saved position); the failure
/// report says whether automatic fallback is configured; the switch is
/// retried on the default device when fallback is configured and a
/// specific device was requested; either way the machine then settles back
/// in `Idle`.
pub fn plan_switch_failure(
    config: &DeviceSwitchConfig,
    device_name: &Option<String>,
    error: String,
    saved_position: Duration,
) -> (r: SwitchFailurePlan)
    ensures
        r.state == (DeviceSwitchState::Recovering { retry_count: 0, last_error: error, saved_position }),
        r.fallback_attempted == config.auto_fallback,
        r.retry_on_default == (config.auto_fallback && device_name is Some),
        r.settled_state == DeviceSwitchState::Idle,
        may_start_switch(r.settled_state),
{
    SwitchFailurePlan {
        state: DeviceSwitchState::Recovering { retry_count: 0, last_error: error, saved_position },
        fallback_attempted: config.auto_fallback,
        retry_on_default: config.auto_fallback && device_name.is_some(),
        settled_state: DeviceSwitchState::Idle,
    }
}

/// `Duration::is_zero`: whether a duration spans no time, that is, equals
/// `Duration::new(0, 0)`.
#[verifier::external_body]
fn duration_is_zero(d: &Duration) -> (r: bool)
    ensures
        r == (*d == duration_value(0, 0)),
{
    d.is_zero()
}

/// What the procedure does once the new stream is open.
#[derive(Debug, PartialEq, Eq)]
pub struct SwitchCompletionPlan {
    /// `SampleRateChanged(old, new)` is reported when the rate changed
    pub rate_change: Option<(u32, u32)>,
    /// Whether the current track's source is reopened at the new rate
    pub reload_source: bool,
    /// Whether playback returns to the saved position (on the reopened
    /// source, or in the manager when the rate is unchanged)
    pub restore_position: bool,
    /// Whether playback is resumed
    pub resume: bool,
    /// The state entered
    pub state: DeviceSwitchState,
    /// The device named in the completion report
    pub completed_device: String,
    /// The sample rate named in the completion report
    pub completed_rate: u32,
}

/// Decide how a switch completes on the new stream: a rate change is
/// reported and the current track (if any) reopened at the new rate; the
/// saved position, when not zero, is restored on the reopened source or,
/// when the rate is unchanged, in the manager; playback resumes when it
/// was running; the machine returns to `Idle` and the completion names the
/// device opened and its rate.
pub fn plan_switch_completion(
    old_rate: u32,
    new_rate: u32,
    has_track: bool,
    saved_position: &Duration,
    was_playing: bool,
    device_name: String,
) -> (r: SwitchCompletionPlan)
    ensures
        r.rate_change == if old_rate != new_rate {
            Some((old_rate, new_rate))
        } else {
            None
        },
        r.reload_source == (old_rate != new_rate && has_track),
        r.restore_position == (*saved_position != duration_value(0, 0) && (old_rate == new_rate
            || has_track)),
        r.resume == was_playing,
        r.state == DeviceSwitchState::Idle,
        may_start_switch(r.state),
        r.completed_device == device_name,
        r.completed_rate == new_rate,
{
    let rate_changed = needs_source_reload(old_rate, new_rate);
    let at_start = duration_is_zero(saved_position);
    SwitchCompletionPlan {
        rate_change: if rate_changed {
            Some((old_rate, new_rate))
        } else {
            None
        },
        reload_source: rate_changed && has_track,
        restore_position: !at_start && (!rate_changed || has_track),
        resume: was_playing,
        state: DeviceSwitchState::Idle,
        completed_device: device_name,
        completed_rate: new_rate,
    }
}

/// After a switch, the audio source is reloaded only when the stream's
/// sample rate changed.
pub fn needs_source_reload(old_rate: u32, new_rate: u32) -> (r: bool)
    ensures
        r == (old_rate != new_rate),
{
    old_rate != new_rate
}

/// Switching to the system default is needed only when the default device
/// is not the current one.
pub fn needs_switch_to_default(default_name: &str, current_device: &str) -> (r: bool)
    ensures
        r == (default_name@ != current_device@),
{
    !str_eq(default_name, current_device)
}

/// Once a switch started, a new one is refused until it ends: the state it
/// enters does not allow another start.
pub proof fn lemma_switch_excludes_switch(
    backend: AudioBackend,
    device_name: Option<String>,
    reason: DeviceSwitchReason,
    saved_position: Duration,
    was_playing: bool,
)
    ensures
        !may_start_switch(
            DeviceSwitchState::Switching {
                target_device: device_name,
                target_backend: backend,
                reason,
                saved_position,
                was_playing,
            },
        ),
        may_start_switch(DeviceSwitchState::Idle),
{
}

/// A failed switch leaves the machine in a state from which a new switch
/// may start.
pub proof fn lemma_failure_allows_retry(error: String, saved_position: Duration)
    ensures
        may_start_switch(
            DeviceSwitchState::Recovering { retry_count: 0, last_error: error, saved_position },
        ),
{
}

// ---------------------------------------------------------------------------
// Sample rate mode
// ---------------------------------------------------------------------------

/// Sample rate mode for playback.
#[derive(Debug, Clone, Copy, PartialEq, Eq, Structural)]
pub enum SampleRateMode {
    /// Resample all audio to the device's current sample rate (default)
    MatchDevice,
    /// Switch device sample rate to match the track's native rate when possible
    MatchTrack,
    /// No resampling - send audio at native rate
    Passthrough,
    /// Fixed output rate - always resample to this rate
    Fixed(u32),
}

impl Default for SampleRateMode {
    fn default() -> (r: Self)
        ensures
            r == SampleRateMode::MatchDevice,
    {
        SampleRateMode::MatchDevice
    }
}

/// `s` with every leading repetition of `p` removed.
pub open spec fn strip_repeated_prefix(s: Seq<char>, p: Seq<char>) -> Seq<char>
    decreases s.len(),
{
    if p.len() > 0 && is_prefix(p, s) {
        strip_repeated_prefix(s.subrange(p.len() as int, s.len() as int), p)
    } else {
        s
    }
}

/// The mode an already-lowercased setting denotes.
pub open spec fn mode_from_lowercase(s: Seq<char>) -> Option<SampleRateMode> {
    if s == "match_device"@ || s == "device"@ || s == "auto"@ {
        Some(SampleRateMode::MatchDevice)
    } else if s == "match_track"@ || s == "track"@ {
        Some(SampleRateMode::MatchTrack)
    } else if s == "passthrough"@ || s == "native"@ || s == "bitperfect"@ {
        Some(SampleRateMode::Passthrough)
    } else if is_prefix("fixed:"@, s) {
        match parse_u32_spec(strip_repeated_prefix(s, "fixed:"@)) {
            Some(r) => Some(SampleRateMode::Fixed(r)),
            None => None,
        }
    } else {
        match parse_u32_spec(s) {
            Some(r) => Some(SampleRateMode::Fixed(r)),
            None => None,
        }
    }
}

fn strip_fixed_prefixes(s: &str) -> (r: String)
    ensures
        r@ == strip_repeated_prefix(s@, "fixed:"@),
{
    proof {
        reveal_strlit("fixed:");
    }
    let mut rest = String::from_str(s);
    loop
        invariant
            "fixed:"@.len() == 6,
            strip_repeated_prefix(rest@, "fixed:"@) == strip_repeated_prefix(s@, "fixed:"@),
        ensures
            rest@ == strip_repeated_prefix(s@, "fixed:"@),
        decreases rest@.len(),
    {
        if str_starts_with(rest.as_str(), "fixed:") {
            let n = rest.as_str().unicode_len();
            let tail = rest.as_str().substring_char(6, n);
            rest = String::from_str(tail);
        } else {
            break;
        }
    }
    rest
}

/// Parse an already-lowercased sample rate mode setting.
pub fn parse_lowercase_mode(s: &str) -> (r: Option<SampleRateMode>)
    ensures
        r == mode_from_lowercase(s@),
{
    if str_eq(s, "match_device") || str_eq(s, "device") || str_eq(s, "auto") {
        Some(SampleRateMode::MatchDevice)
    } else if str_eq(s, "match_track") || str_eq(s, "track") {
        Some(SampleRateMode::MatchTrack)
    } else if str_eq(s, "passthrough") || str_eq(s, "native") || str_eq(s, "bitperfect") {
        Some(SampleRateMode::Passthrough)
    } else if str_starts_with(s, "fixed:") {
        let rest = strip_fixed_prefixes(s);
        match parse_u32(rest.as_str()) {
            Some(r) => Some(SampleRateMode::Fixed(r)),
            None => None,
        }
    } else {
        match parse_u32(s) {
            Some(r) => Some(SampleRateMode::Fixed(r)),
            None => None,
        }
    }
}

/// The text a mode is saved as.
pub open spec fn mode_text(m: SampleRateMode) -> Seq<char> {
    match m {
        SampleRateMode::MatchDevice => "match_device"@,
        SampleRateMode::MatchTrack => "match_track"@,
        SampleRateMode::Passthrough => "passthrough"@,
        SampleRateMode::Fixed(_) => "fixed"@,
    }
}

/// The target rate and whether resampling is needed, for a mode, a track
/// rate, a device rate and the rates the device supports.
pub open spec fn resolved_rate(
    m: SampleRateMode,
    track_rate: u32,
    device_rate: u32,
    supported: Option<Seq<u32>>,
) -> (u32, bool) {
    match m {
        SampleRateMode::MatchDevice => (device_rate, track_rate != device_rate),
        SampleRateMode::MatchTrack => if supported matches Some(rates) && rates.contains(track_rate) {
            (track_rate, false)
        } else {
            (device_rate, track_rate != device_rate)
        },
        SampleRateMode::Passthrough => (track_rate, false),
        SampleRateMode::Fixed(target) => (target, track_rate != target),
    }
}

impl SampleRateMode {
    /// Parse a saved setting (case-insensitively): `match_device`, `device`
    /// or `auto`; `match_track` or `track`; `passthrough`, `native` or
    /// `bitperfect`; `fixed:` followed by a rate; or a bare rate.
    pub fn from_str(s: &str) -> (r: Option<Self>)
        ensures
            r == mode_from_lowercase(unicode_lowercase(s@)),
            all_ascii(s@) ==> r == mode_from_lowercase(ascii_lower(s@)),
    {
        let lower = str_to_lowercase(s);
        parse_lowercase_mode(lower.as_str())
    }

    /// Convert to string for settings persistence (`fixed` for any fixed rate).
    pub fn as_str(&self) -> (r: &'static str)
        ensures
            r@ == mode_text(*self),
    {
        match self {
            SampleRateMode::MatchDevice => "match_device",
            SampleRateMode::MatchTrack => "match_track",
            SampleRateMode::Passthrough => "passthrough",
            SampleRateMode::Fixed(_) => "fixed",
        }
    }

    /// Check if this mode requires exclusive device access.
    pub fn requires_exclusive(&self) -> (r: bool)
        ensures
            r == (*self is MatchTrack || *self is Passthrough),
    {
        matches!(self, SampleRateMode::MatchTrack | SampleRateMode::Passthrough)
    }

    /// Get the target sample rate for a track and device, and whether
    /// resampling is needed.
    #[verifier::loop_isolation(false)]
    pub fn resolve_rate(&self, track_rate: u32, device_rate: u32, device_supported_rates: Option<
        &[u32],
    >) -> (r: (u32, bool))
        ensures
            r == resolved_rate(
                *self,
                track_rate,
                device_rate,
                match device_supported_rates {
                    Some(rates) => Some(rates@),
                    None => None,
                },
            ),
            r.1 == (r.0 != track_rate),
            *self is MatchDevice ==> r.0 == device_rate,
            *self is Passthrough ==> r.0 == track_rate,
            *self matches SampleRateMode::Fixed(target) ==> r.0 == target,
            *self is MatchTrack ==> r.0 == if device_supported_rates matches Some(rates) && exists|i: int|
                0 <= i < rates@.len() && rates@[i] == track_rate {
                track_rate
            } else {
                device_rate
            },
    {
        match self {
            SampleRateMode::MatchDevice => (device_rate, track_rate != device_rate),
            SampleRateMode::MatchTrack => {
                if let Some(rates) = device_supported_rates {
                    let mut i: usize = 0;
                    while i < rates.len()
                        invariant
                            i <= rates@.len(),
                            forall|j: int| 0 <= j < i ==> rates@[j] != track_rate,
                        decreases rates@.len() - i,
                    {
                        if rates[i] == track_rate {
                            return (track_rate, false);
                        }
                        i = i + 1;
                    }
                }
                (device_rate, track_rate != device_rate)
            },
            SampleRateMode::Passthrough => (track_rate, false),
            SampleRateMode::Fixed(target) => (*target, track_rate != *target),
        }
    }
}

/// Resampling is needed exactly when the target rate differs from the
/// track's rate; a device that supports the track's rate (anywhere in its
/// list) plays a track-matching mode at that rate; passthrough always
/// plays at the track's rate, and a fixed mode at its rate.
pub proof fn lemma_resolved_rate_laws(
    m: SampleRateMode,
    track_rate: u32,
    device_rate: u32,
    supported: Option<Seq<u32>>,
)
    ensures
        resolved_rate(m, track_rate, device_rate, supported).1 == (resolved_rate(
            m,
            track_rate,
            device_rate,
            supported,
        ).0 != track_rate),
        m is MatchTrack && (supported matches Some(rates) && exists|i: int|
            0 <= i < rates.len() && rates[i] == track_rate) ==> resolved_rate(
            m,
            track_rate,
            device_rate,
            supported,
        ) == (track_rate, false),
        m is MatchTrack && !(supported matches Some(rates) && exists|i: int|
            0 <= i < rates.len() && rates[i] == track_rate) ==> resolved_rate(
            m,
            track_rate,
            device_rate,
            supported,
        ).0 == device_rate,
        m is MatchDevice ==> resolved_rate(m, track_rate, device_rate, supported).0 == device_rate,
        m is Passthrough ==> resolved_rate(m, track_rate, device_rate, supported) == (track_rate, false),
        m matches SampleRateMode::Fixed(t) ==> resolved_rate(m, track_rate, device_rate, supported).0
            == t,
{
    if let Some(rates) = supported {
        if exists|i: int| 0 <= i < rates.len() && rates[i] == track_rate {
            let i = choose|i: int| 0 <= i < rates.len() && rates[i] == track_rate;
            assert(rates.contains(track_rate));
        }
    }
}

/// Saving a mode that is not a fixed rate and reading the text back gives
/// the mode again; the saved text is ASCII and already lowercase, so
/// reading it case-insensitively gives the mode too.
pub proof fn lemma_mode_text_roundtrip(m: SampleRateMode)
    requires
        !(m is Fixed),
    ensures
        all_ascii(mode_text(m)),
        ascii_lower(mode_text(m)) == mode_text(m),
        mode_from_lowercase(mode_text(m)) == Some(m),
{
    reveal_strlit("match_device");
    reveal_strlit("match_track");
    reveal_strlit("passthrough");
    reveal_strlit("device");
    reveal_strlit("auto");
    reveal_strlit("track");
    reveal_strlit("native");
    reveal_strlit("bitperfect");
    reveal_strlit("fixed");
    assert(ascii_lower(mode_text(m)) =~= mode_text(m));
}

/// A bare decimal rate is read back as that fixed rate.
pub proof fn lemma_fixed_rate_roundtrip(rate: u32)
    ensures
        mode_from_lowercase(decimal(rate as nat)) == Some(SampleRateMode::Fixed(rate)),
{
    crate::text::lemma_parse_decimal_roundtrip(rate);
    crate::text::lemma_decimal_digits(rate as nat);
    let d = decimal(rate as nat);
    reveal_strlit("match_device");
    reveal_strlit("match_track");
    reveal_strlit("passthrough");
    reveal_strlit("device");
    reveal_strlit("auto");
    reveal_strlit("track");
    reveal_strlit("native");
    reveal_strlit("bitperfect");
    reveal_strlit("fixed:");
    assert(!is_prefix("fixed:"@, d)) by {
        if is_prefix("fixed:"@, d) {
            assert(d.subrange(0, 6)[0] == d[0]);
            assert(d[0] == 'f');
            assert(crate::text::is_digit(d[0]));
        }
    }
    assert(d != "match_device"@) by {
        assert("match_device"@[0] == 'm');
    }
    assert(d != "device"@) by {
        assert("device"@[0] == 'd');
    }
    assert(d != "auto"@) by {
        assert("auto"@[0] == 'a');
    }
    assert(d != "match_track"@) by {
        assert("match_track"@[0] == 'm');
    }
    assert(d != "track"@) by {
        assert("track"@[0] == 't');
    }
    assert(d != "passthrough"@) by {
        assert("passthrough"@[0] == 'p');
    }
    assert(d != "native"@) by {
        assert("native"@[0] == 'n');
    }
    assert(d != "bitperfect"@) by {
        assert("bitperfect"@[0] == 'b');
    }
}

// ---------------------------------------------------------------------------
// Resampling settings
// ---------------------------------------------------------------------------

/// Resampling quality preset.
#[derive(Debug, Clone, Copy, PartialEq, Eq, Structural)]
pub enum ResamplingQuality {
    /// Fast - low CPU
    Fast,
    /// Balanced - good quality with moderate CPU
    Balanced,
    /// High - excellent quality (default)
    High,
    /// Maximum - highest possible quality
    Maximum,
}

impl Default for ResamplingQuality {
    fn default() -> (r: Self)
        ensures
            r == ResamplingQuality::High,
    {
        ResamplingQuality::High
    }
}

impl ResamplingQuality {
    /// Sinc filter length for this quality.
    pub fn sinc_len(&self) -> (r: usize)
        ensures
            r == match *self {
                ResamplingQuality::Fast => 64usize,
                ResamplingQuality::Balanced => 128usize,
                ResamplingQuality::High => 256usize,
                ResamplingQuality::Maximum => 512usize,
            },
    {
        match self {
            ResamplingQuality::Fast => 64,
            ResamplingQuality::Balanced => 128,
            ResamplingQuality::High => 256,
            ResamplingQuality::Maximum => 512,
        }
    }

    /// Oversampling factor for this quality.
    pub fn oversampling_factor(&self) -> (r: usize)
        ensures
            r == match *self {
                ResamplingQuality::Fast => 128usize,
                ResamplingQuality::Balanced => 256usize,
                ResamplingQuality::High => 512usize,
                ResamplingQuality::Maximum => 1024usize,
            },
    {
        match self {
            ResamplingQuality::Fast => 128,
            ResamplingQuality::Balanced => 256,
            ResamplingQuality::High => 512,
            ResamplingQuality::Maximum => 1024,
        }
    }
}

/// Resampling settings for audio playback.
#[derive(Debug, Clone)]
pub struct ResamplingSettings {
    /// Quality preset: "fast", "balanced", "high", "maximum"
    pub quality: String,
    /// Sample rate mode
    pub sample_rate_mode: SampleRateMode,
    /// Target sample rate override. 0 = auto (use device rate)
    pub target_rate: u32,
    /// Backend: "auto", "rubato", "r8brain"
    pub backend: String,
}

/// The sinc filter length of a quality preset name (unknown names as `high`).
pub open spec fn preset_sinc_len(q: Seq<char>) -> usize {
    if q == "fast"@ {
        64
    } else if q == "balanced"@ {
        128
    } else if q == "high"@ {
        256
    } else if q == "maximum"@ {
        512
    } else {
        256
    }
}

/// The oversampling factor of a quality preset name (unknown names as `high`).
pub open spec fn preset_oversampling(q: Seq<char>) -> usize {
    if q == "fast"@ {
        128
    } else if q == "balanced"@ {
        256
    } else if q == "high"@ {
        256
    } else if q == "maximum"@ {
        512
    } else {
        256
    }
}

/// The quality preset names a setting accepts.
pub open spec fn valid_quality(q: Seq<char>) -> bool {
    q == "fast"@ || q == "balanced"@ || q == "high"@ || q == "maximum"@
}

/// The backend names a setting accepts.
pub open spec fn valid_backend(b: Seq<char>) -> bool {
    b == "auto"@ || b == "rubato"@ || b == "r8brain"@
}

/// The target rates a setting accepts: 0 (auto) or 8000 to 384000 Hz.
pub open spec fn valid_target_rate(r: u32) -> bool {
    r == 0 || (8000 <= r && r <= 384000)
}

impl Default for ResamplingSettings {
    fn default() -> (r: Self)
        ensures
            r.quality@ == "high"@,
            r.sample_rate_mode == SampleRateMode::MatchDevice,
            r.target_rate == 0,
            r.backend@ == "auto"@,
    {
        ResamplingSettings {
            quality: String::from_str("high"),
            sample_rate_mode: SampleRateMode::MatchDevice,
            target_rate: 0,
            backend: String::from_str("auto"),
        }
    }
}

impl ResamplingSettings {
    /// Sinc filter length of the quality preset.
    pub fn sinc_len(&self) -> (r: usize)
        ensures
            r == preset_sinc_len(self.quality@),
    {
        let q = self.quality.as_str();
        if str_eq(q, "fast") {
            64
        } else if str_eq(q, "balanced") {
            128
        } else if str_eq(q, "high") {
            256
        } else if str_eq(q, "maximum") {
            512
        } else {
            256
        }
    }

    /// Oversampling factor of the quality preset.
    pub fn oversampling_factor(&self) -> (r: usize)
        ensures
            r == preset_oversampling(self.quality@),
    {
        let q = self.quality.as_str();
        if str_eq(q, "fast") {
            128
        } else if str_eq(q, "balanced") {
            256
        } else if str_eq(q, "high") {
            256
        } else if str_eq(q, "maximum") {
            512
        } else {
            256
        }
    }

    /// Set the quality preset; names other than `fast`, `balanced`, `high`
    /// and `maximum` are refused and leave the settings unchanged.
    pub fn set_quality(&mut self, quality: &str) -> (r: Result<(), String>)
        ensures
            valid_quality(quality@) ==> r is Ok && final(self).quality@ == quality@
                && final(self).sample_rate_mode == old(self).sample_rate_mode
                && final(self).target_rate == old(self).target_rate
                && final(self).backend == old(self).backend,
            !valid_quality(quality@) ==> *final(self) == *old(self) && err_text(r) == Some(
                "Invalid quality '"@ + quality@ + "'. Must be one of: fast, balanced, high, maximum"@,
            ),
    {
        if !(str_eq(quality, "fast") || str_eq(quality, "balanced") || str_eq(quality, "high")
            || str_eq(quality, "maximum")) {
            return Err(
                String::from_str("Invalid quality '").concat(quality).concat(
                    "'. Must be one of: fast, balanced, high, maximum",
                ),
            );
        }
        self.quality = String::from_str(quality);
        Ok(())
    }

    /// Set the target sample rate; rates other than 0 (auto) and 8000 to
    /// 384000 Hz are refused and leave the settings unchanged.
    pub fn set_target_rate(&mut self, rate: u32) -> (r: Result<(), String>)
        ensures
            valid_target_rate(rate) ==> r is Ok && *final(self) == (ResamplingSettings {
                target_rate: rate,
                ..*old(self)
            }),
            !valid_target_rate(rate) ==> *final(self) == *old(self) && err_text(r) == Some(
                "Invalid target rate "@ + decimal(rate as nat)
                    + ". Must be 0 (auto) or between 8000 and 384000 Hz"@,
            ),
    {
        if rate != 0 && !(8000 <= rate && rate <= 384000) {
            let n = u64_to_decimal(rate as u64);
            return Err(
                String::from_str("Invalid target rate ").concat(n.as_str()).concat(
                    ". Must be 0 (auto) or between 8000 and 384000 Hz",
                ),
            );
        }
        self.target_rate = rate;
        Ok(())
    }

    /// Set the resampling backend: `auto` or `rubato`; `r8brain` is known
    /// but not compiled into this build; other names are refused. A refused
    /// name leaves the settings unchanged.
    pub fn set_backend(&mut self, backend: &str) -> (r: Result<(), String>)
        ensures
            !valid_backend(backend@) ==> *final(self) == *old(self) && err_text(r) == Some(
                "Invalid backend '"@ + backend@ + "'. Must be one of: auto, rubato, r8brain"@,
            ),
            backend@ == "r8brain"@ ==> *final(self) == *old(self) && err_text(r) == Some(
                "r8brain backend is not available in this build. Use 'auto' or 'rubato' instead."@,
            ),
            (backend@ == "auto"@ || backend@ == "rubato"@) ==> r is Ok && final(self).backend@
                == backend@ && final(self).quality == old(self).quality
                && final(self).sample_rate_mode == old(self).sample_rate_mode
                && final(self).target_rate == old(self).target_rate,
    {
        proof {
            reveal_strlit("auto");
            reveal_strlit("rubato");
            reveal_strlit("r8brain");
            assert("r8brain"@.len() != "auto"@.len());
            assert("r8brain"@.len() != "rubato"@.len());
        }
        if !(str_eq(backend, "auto") || str_eq(backend, "rubato") || str_eq(backend, "r8brain")) {
            return Err(
                String::from_str("Invalid backend '").concat(backend).concat(
                    "'. Must be one of: auto, rubato, r8brain",
                ),
            );
        }
        if str_eq(backend, "r8brain") {
            return Err(
                String::from_str(
                    "r8brain backend is not available in this build. Use 'auto' or 'rubato' instead.",
                ),
            );
        }
        self.backend = String::from_str(backend);
        Ok(())
    }
}

} // verus!
