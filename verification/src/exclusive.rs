//! Exclusive-mode / bit-perfect output configuration.
//!
//! [`ExclusiveConfig`] says what the caller asks for; [`find_best_config`]
//! picks, among the output configurations a device reports, the one a stream
//! is opened with, and the buffer size it is opened with.

use vstd::prelude::*;

use crate::backend::AudioBackend;

verus! {

/// Supported output bit depths.
#[derive(Debug, Clone, Copy, PartialEq, Eq, Structural)]
pub enum SupportedBitDepth {
    /// 16-bit signed integer
    Int16,
    /// 24-bit signed integer (carried in 32-bit samples)
    Int24,
    /// 32-bit signed integer
    Int32,
    /// 32-bit float
    Float32,
    /// 64-bit float
    Float64,
}

/// Exclusive mode configuration.
#[derive(Debug, Clone)]
pub struct ExclusiveConfig {
    /// Target sample rate (Hz) - 0 for device native
    pub sample_rate: u32,
    /// Target bit depth / sample format
    pub bit_depth: SupportedBitDepth,
    /// Buffer size in frames (smaller = lower latency, higher CPU);
    /// None for device default
    pub buffer_frames: Option<u32>,
    /// Enable exclusive mode (bypasses the system mixer)
    pub exclusive_mode: bool,
    /// Device name (None for default device)
    pub device_name: Option<String>,
    /// Audio backend to use
    pub backend: AudioBackend,
}

/// The default configuration: device-native rate, 32-bit float, device
/// default buffer, exclusive, default device of the default backend.
pub open spec fn default_exclusive_config() -> ExclusiveConfig {
    ExclusiveConfig {
        sample_rate: 0,
        bit_depth: SupportedBitDepth::Float32,
        buffer_frames: None,
        exclusive_mode: true,
        device_name: None,
        backend: AudioBackend::Default,
    }
}

impl Default for ExclusiveConfig {
    fn default() -> (r: Self)
        ensures
            r == default_exclusive_config(),
    {
        ExclusiveConfig {
            sample_rate: 0,
            bit_depth: SupportedBitDepth::Float32,
            buffer_frames: None,
            exclusive_mode: true,
            device_name: None,
            backend: AudioBackend::Default,
        }
    }
}

impl ExclusiveConfig {
    /// Create config for bit-perfect 16-bit playback.
    pub fn bit_perfect_16() -> (r: Self)
        ensures
            r == (ExclusiveConfig {
                bit_depth: SupportedBitDepth::Int16,
                ..default_exclusive_config()
            }),
    {
        ExclusiveConfig { bit_depth: SupportedBitDepth::Int16, exclusive_mode: true, ..Self::default() }
    }

    /// Create config for bit-perfect 24-bit playback.
    pub fn bit_perfect_24() -> (r: Self)
        ensures
            r == (ExclusiveConfig {
                bit_depth: SupportedBitDepth::Int24,
                ..default_exclusive_config()
            }),
    {
        ExclusiveConfig { bit_depth: SupportedBitDepth::Int24, exclusive_mode: true, ..Self::default() }
    }

    /// Create config for bit-perfect 32-bit integer playback.
    pub fn bit_perfect_32() -> (r: Self)
        ensures
            r == (ExclusiveConfig {
                bit_depth: SupportedBitDepth::Int32,
                ..default_exclusive_config()
            }),
    {
        ExclusiveConfig { bit_depth: SupportedBitDepth::Int32, exclusive_mode: true, ..Self::default() }
    }

    /// Create config for low-latency playback (a 128-frame buffer).
    pub fn low_latency() -> (r: Self)
        ensures
            r == (ExclusiveConfig { buffer_frames: Some(128u32), ..default_exclusive_config() }),
    {
        ExclusiveConfig { buffer_frames: Some(128), exclusive_mode: true, ..Self::default() }
    }

    /// Create config for ultra-low latency (a 64-frame buffer).
    pub fn ultra_low_latency() -> (r: Self)
        ensures
            r == (ExclusiveConfig { buffer_frames: Some(64u32), ..default_exclusive_config() }),
    {
        ExclusiveConfig { buffer_frames: Some(64), exclusive_mode: true, ..Self::default() }
    }

    /// Set sample rate.
    pub fn with_sample_rate(self, rate: u32) -> (r: Self)
        ensures
            r == (ExclusiveConfig { sample_rate: rate, ..self }),
    {
        let mut c = self;
        c.sample_rate = rate;
        c
    }

    /// Set buffer size in frames.
    pub fn with_buffer_frames(self, frames: u32) -> (r: Self)
        ensures
            r == (ExclusiveConfig { buffer_frames: Some(frames), ..self }),
    {
        let mut c = self;
        c.buffer_frames = Some(frames);
        c
    }

    /// Set device by name.
    pub fn with_device(self, name: &str) -> (r: Self)
        ensures
            r.device_name matches Some(n) && n@ == name@,
            r == (ExclusiveConfig { device_name: r.device_name, ..self }),
    {
        let mut c = self;
        c.device_name = Some(String::from_str(name));
        c
    }

    /// Set backend.
    pub fn with_backend(self, backend: AudioBackend) -> (r: Self)
        ensures
            r == (ExclusiveConfig { backend, ..self }),
    {
        let mut c = self;
        c.backend = backend;
        c
    }
}

// ---------------------------------------------------------------------------
// Configuration selection
// ---------------------------------------------------------------------------

/// Sample formats a device configuration can have.
#[derive(Debug, Clone, Copy, PartialEq, Eq, Structural)]
pub enum SampleFormat {
    /// `i8`
    I8,
    /// `i16`
    I16,
    /// 24-bit signed integer
    I24,
    /// `i32`
    I32,
    /// `i64`
    I64,
    /// `u8`
    U8,
    /// `u16`
    U16,
    /// 24-bit unsigned integer
    U24,
    /// `u32`
    U32,
    /// `u64`
    U64,
    /// `f32`
    F32,
    /// `f64`
    F64,
}

/// Buffer sizes a device configuration supports.
#[derive(Debug, Clone, Copy, PartialEq, Eq, Structural)]
pub enum SupportedBufferSize {
    /// Any size in the inclusive range, in frames.
    Range {
        /// Smallest size
        min: u32,
        /// Largest size
        max: u32,
    },
    /// The platform does not say.
    Unknown,
}

/// Buffer size a stream is opened with.
#[derive(Debug, Clone, Copy, PartialEq, Eq, Structural)]
pub enum BufferSize {
    /// The device's default
    Default,
    /// A fixed number of frames
    Fixed(u32),
}

/// One output configuration range a device reports.
#[derive(Debug, Clone, Copy, PartialEq, Eq, Structural)]
pub struct SupportedConfig {
    /// Channel count
    pub channels: u16,
    /// Lowest supported sample rate (Hz)
    pub min_sample_rate: u32,
    /// Highest supported sample rate (Hz)
    pub max_sample_rate: u32,
    /// Supported buffer sizes
    pub buffer_size: SupportedBufferSize,
    /// Sample format
    pub sample_format: SampleFormat,
}

/// The settings a stream is opened with.
#[derive(Debug, Clone, Copy, PartialEq, Eq, Structural)]
pub struct StreamSettings {
    /// Channel count
    pub channels: u16,
    /// Sample rate (Hz)
    pub sample_rate: u32,
    /// Buffer size
    pub buffer_size: BufferSize,
}

/// Why no stream configuration could be chosen.
#[derive(Debug, Clone, PartialEq, Eq)]
pub enum ConfigSelectionError {
    /// The device's supported configurations could not be read.
    QueryFailed(String),
    /// No supported configuration fits the request.
    NoCompatibleConfig,
}

impl ConfigSelectionError {
    /// The message of an error.
    pub open spec fn spec_message(&self) -> Seq<char> {
        match self {
            ConfigSelectionError::QueryFailed(e) => e@,
            ConfigSelectionError::NoCompatibleConfig => "No compatible config found"@,
        }
    }

    /// The error's message.
    pub fn to_string(&self) -> (r: String)
        ensures
            r@ == self.spec_message(),
    {
        match self {
            ConfigSelectionError::QueryFailed(e) => e.clone(),
            ConfigSelectionError::NoCompatibleConfig => String::from_str("No compatible config found"),
        }
    }
}

/// Buffer size used when a zero-frame buffer is requested.
pub const DEFAULT_BUFFER_FRAMES: u32 = 1024;

/// The sample format a bit depth asks for.
pub open spec fn target_format(d: SupportedBitDepth) -> SampleFormat {
    match d {
        SupportedBitDepth::Int16 => SampleFormat::I16,
        SupportedBitDepth::Int24 => SampleFormat::I32,
        SupportedBitDepth::Int32 => SampleFormat::I32,
        SupportedBitDepth::Float32 => SampleFormat::F32,
        SupportedBitDepth::Float64 => SampleFormat::F64,
    }
}

/// The rate a configuration would be opened at: for a requested rate of 0,
/// 44100 Hz if it is in range, else 48000 Hz if it is in range, else the
/// lowest rate; otherwise the requested rate, if it is in range.
pub open spec fn candidate_rate(c: SupportedConfig, requested: u32) -> Option<u32> {
    if requested == 0 {
        if c.min_sample_rate <= 44100 && c.max_sample_rate >= 44100 {
            Some(44100u32)
        } else if c.min_sample_rate <= 48000 && c.max_sample_rate >= 48000 {
            Some(48000u32)
        } else {
            Some(c.min_sample_rate)
        }
    } else if c.min_sample_rate <= requested && requested <= c.max_sample_rate {
        Some(requested)
    } else {
        None
    }
}

/// Configuration `c` has a usable rate for the request and format `f`.
pub open spec fn usable_with(c: SupportedConfig, requested: u32, f: SampleFormat) -> bool {
    candidate_rate(c, requested) is Some && c.sample_format == f
}

/// Index `i` is the first configuration usable with format `f`.
pub open spec fn first_usable(cs: Seq<SupportedConfig>, requested: u32, f: SampleFormat, i: int) -> bool {
    &&& 0 <= i < cs.len()
    &&& usable_with(cs[i], requested, f)
    &&& forall|j: int| 0 <= j < i ==> !usable_with(#[trigger] cs[j], requested, f)
}

/// No configuration is usable with format `f`.
pub open spec fn none_usable(cs: Seq<SupportedConfig>, requested: u32, f: SampleFormat) -> bool {
    forall|j: int| 0 <= j < cs.len() ==> !usable_with(#[trigger] cs[j], requested, f)
}

/// Index `i` is the configuration chosen: the first one in the target
/// format, or, when there is none, the first one in 32-bit float.
pub open spec fn chosen_config(cs: Seq<SupportedConfig>, config: ExclusiveConfig, i: int) -> bool {
    let t = target_format(config.bit_depth);
    first_usable(cs, config.sample_rate, t, i) || (none_usable(cs, config.sample_rate, t)
        && first_usable(cs, config.sample_rate, SampleFormat::F32, i))
}

/// The sample format each bit depth asks for: 16-bit integers as i16,
/// 24- and 32-bit integers as i32, floats at their own width.
pub proof fn lemma_bit_depth_formats(d: SupportedBitDepth)
    ensures
        d is Int16 ==> target_format(d) == SampleFormat::I16,
        d is Int24 ==> target_format(d) == SampleFormat::I32,
        d is Int32 ==> target_format(d) == SampleFormat::I32,
        d is Float32 ==> target_format(d) == SampleFormat::F32,
        d is Float64 ==> target_format(d) == SampleFormat::F64,
{
}

/// `x` clamped to `[lo, hi]`.
pub open spec fn clamp_frames(x: u32, lo: u32, hi: u32) -> u32 {
    if x < lo {
        lo
    } else if x > hi {
        hi
    } else {
        x
    }
}

/// The buffer size a stream is opened with: the device default when none is
/// requested; otherwise the request (1024 frames for a zero request),
/// clamped to the configuration's range when it has one.
pub open spec fn chosen_buffer_size(requested: Option<u32>, supported: SupportedBufferSize) -> BufferSize {
    match requested {
        None => BufferSize::Default,
        Some(frames) => {
            let want = if frames == 0 {
                DEFAULT_BUFFER_FRAMES
            } else {
                frames
            };
            match supported {
                SupportedBufferSize::Range { min, max } => BufferSize::Fixed(clamp_frames(want, min, max)),
                SupportedBufferSize::Unknown => BufferSize::Fixed(want),
            }
        },
    }
}

/// The stream settings for a chosen configuration.
pub open spec fn settings_for(c: SupportedConfig, config: ExclusiveConfig) -> StreamSettings {
    StreamSettings {
        channels: c.channels,
        sample_rate: candidate_rate(c, config.sample_rate).unwrap(),
        buffer_size: chosen_buffer_size(config.buffer_frames, c.buffer_size),
    }
}

/// Every buffer range a configuration reports is ordered.
pub open spec fn ranges_ordered(cs: Seq<SupportedConfig>) -> bool {
    forall|i: int|
        0 <= i < cs.len() ==> (#[trigger] cs[i].buffer_size matches SupportedBufferSize::Range {
            min,
            max,
        } ==> min <= max)
}

fn candidate_rate_exec(c: &SupportedConfig, requested: u32) -> (r: Option<u32>)
    ensures
        r == candidate_rate(*c, requested),
{
    if requested == 0 {
        if c.min_sample_rate <= 44100 && c.max_sample_rate >= 44100 {
            Some(44100)
        } else if c.min_sample_rate <= 48000 && c.max_sample_rate >= 48000 {
            Some(48000)
        } else {
            Some(c.min_sample_rate)
        }
    } else if c.min_sample_rate <= requested && requested <= c.max_sample_rate {
        Some(requested)
    } else {
        None
    }
}

fn target_format_exec(d: SupportedBitDepth) -> (r: SampleFormat)
    ensures
        r == target_format(d),
{
    match d {
        SupportedBitDepth::Int16 => SampleFormat::I16,
        SupportedBitDepth::Int24 | SupportedBitDepth::Int32 => SampleFormat::I32,
        SupportedBitDepth::Float32 => SampleFormat::F32,
        SupportedBitDepth::Float64 => SampleFormat::F64,
    }
}

fn buffer_size_exec(requested: Option<u32>, supported: SupportedBufferSize) -> (r: BufferSize)
    requires
        requested is Some ==> (supported matches SupportedBufferSize::Range { min, max } ==> min
            <= max),
    ensures
        r == chosen_buffer_size(requested, supported),
{
    match requested {
        None => BufferSize::Default,
        Some(frames) => {
            let want = if frames == 0 {
                DEFAULT_BUFFER_FRAMES
            } else {
                frames
            };
            match supported {
                SupportedBufferSize::Range { min, max } => {
                    let clamped = if want < min {
                        min
                    } else if want > max {
                        max
                    } else {
                        want
                    };
                    BufferSize::Fixed(clamped)
                },
                SupportedBufferSize::Unknown => BufferSize::Fixed(want),
            }
        },
    }
}

/// Choose the stream configuration for an exclusive-mode request.
///
/// Among the supported configurations (in the order the device reports
/// them) whose rate range fits the request, the first in the requested
/// format is chosen; when there is none, the first in 32-bit float. The
/// stream is opened at the chosen rate (see [`candidate_rate`]) with the
/// buffer size of [`chosen_buffer_size`].
pub fn find_best_config(
    supported: &Result<Vec<SupportedConfig>, String>,
    config: &ExclusiveConfig,
) -> (r: Result<(StreamSettings, SampleFormat, BufferSize), ConfigSelectionError>)
    requires
        config.buffer_frames is Some ==> (supported matches Ok(cs) ==> ranges_ordered(cs@)),
    ensures
        match supported {
            Err(e) => r matches Err(ConfigSelectionError::QueryFailed(m)) && m@ == e@,
            Ok(cs) => match r {
                Ok((s, f, b)) => exists|i: int|
                    #![trigger cs@[i]]
                    chosen_config(cs@, *config, i) && s == settings_for(cs@[i], *config) && f
                        == cs@[i].sample_format && b == s.buffer_size,
                Err(e) => e == ConfigSelectionError::NoCompatibleConfig && none_usable(
                    cs@,
                    config.sample_rate,
                    target_format(config.bit_depth),
                ) && none_usable(cs@, config.sample_rate, SampleFormat::F32),
            },
        },
        supported matches Ok(cs) ==> ({
            let wanted = match config.bit_depth {
                SupportedBitDepth::Int16 => SampleFormat::I16,
                SupportedBitDepth::Int24 => SampleFormat::I32,
                SupportedBitDepth::Int32 => SampleFormat::I32,
                SupportedBitDepth::Float32 => SampleFormat::F32,
                SupportedBitDepth::Float64 => SampleFormat::F64,
            };
            &&& (exists|i: int| 0 <= i < cs@.len() && usable_with(#[trigger] cs@[i], config.sample_rate, wanted))
                ==> (r matches Ok((_, f, _)) && f == wanted)
            &&& (r matches Ok((_, f, _)) ==> f == wanted || f == SampleFormat::F32)
        }),
{
    let cs = match supported {
        Err(e) => {
            return Err(ConfigSelectionError::QueryFailed(e.clone()));
        },
        Ok(cs) => cs,
    };
    let target = target_format_exec(config.bit_depth);
    let requested = config.sample_rate;
    let ghost t = target_format(config.bit_depth);
    let mut best: Option<usize> = None;
    let mut fallback: Option<usize> = None;
    let mut i: usize = 0;
    while i < cs.len()
        invariant_except_break
            best is None,
        invariant
            i <= cs.len(),
            target == t,
            requested == config.sample_rate,
            forall|j: int| 0 <= j < i ==> !usable_with(#[trigger] cs@[j], requested, t),
            match fallback {
                Some(k) => first_usable(cs@, requested, SampleFormat::F32, k as int) && k < i,
                None => forall|j: int|
                    0 <= j < i ==> !usable_with(#[trigger] cs@[j], requested, SampleFormat::F32),
            },
        ensures
            match best {
                Some(k) => first_usable(cs@, requested, t, k as int),
                None => i == cs.len(),
            },
        decreases cs.len() - i,
    {
        let c = &cs[i];
        let rate = candidate_rate_exec(c, requested);
        if rate.is_some() {
            if c.sample_format == target {
                best = Some(i);
                break;
            }
            if c.sample_format == SampleFormat::F32 && fallback.is_none() {
                fallback = Some(i);
            }
        }
        i = i + 1;
    }
    let chosen = match best {
        Some(k) => k,
        None => match fallback {
            Some(k) => k,
            None => {
                return Err(ConfigSelectionError::NoCompatibleConfig);
            },
        },
    };
    let c = cs[chosen];
    proof {
        assert(chosen_config(cs@, *config, chosen as int));
        lemma_bit_depth_formats(config.bit_depth);
        assert(c == cs@[chosen as int]);
    }
    let rate = candidate_rate_exec(&c, requested).unwrap();
    let buffer_size = buffer_size_exec(config.buffer_frames, c.buffer_size);
    let settings = StreamSettings { channels: c.channels, sample_rate: rate, buffer_size };
    Ok((settings, c.sample_format, buffer_size))
}

} // verus!
