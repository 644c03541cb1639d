//! Stream start fade bookkeeping and decoded-sample buffering.
//!
//! A freshly started stream is faded in over 30 ms so the DAC does not pop.
//! [`StreamStartEnvelope`] tracks how far the fade has progressed and tells
//! the caller which samples of each buffer to scale (computing the gain
//! curve itself is done by the caller).

use vstd::prelude::*;

use std::collections::VecDeque;

use crate::backend::AudioBackend;
use crate::device::{find_device_by_name, probe_named, DeviceError, HostProbe};
use crate::exclusive::{BufferSize, SampleFormat, StreamSettings, SupportedBufferSize, SupportedConfig};

verus! {

broadcast use vstd::std_specs::vecdeque::group_vec_dequeue_axioms;

/// Stream start fade duration in milliseconds.
pub const STREAM_START_FADE_MS: u32 = 30;

/// Fade length, in samples over all channels, for a sample rate and
/// channel count.
pub open spec fn fade_samples(sample_rate: u32, channels: u16) -> usize {
    ((sample_rate as int * STREAM_START_FADE_MS as int * channels as int) / 1000) as usize
}

/// Progress of the stream start fade.
pub struct StreamStartEnvelope {
    position: usize,
    duration: usize,
    completed: bool,
}

/// The samples of one buffer that lie within the fade: `count` samples from
/// fade position `start`, of a fade `duration` samples long.
#[derive(Debug, Clone, Copy, PartialEq, Eq, Structural)]
pub struct FadeSpan {
    /// Fade position of the buffer's first sample
    pub start: usize,
    /// Number of leading samples of the buffer within the fade
    pub count: usize,
    /// Fade length in samples
    pub duration: usize,
    /// Whether the fade is still running after this buffer
    pub active: bool,
}

impl StreamStartEnvelope {
    /// Samples faded so far.
    pub closed spec fn position(&self) -> usize {
        self.position
    }

    /// Fade length in samples.
    pub closed spec fn duration(&self) -> usize {
        self.duration
    }

    /// Whether the fade has finished.
    pub closed spec fn completed(&self) -> bool {
        self.completed
    }

    /// The fade never runs past its length.
    pub closed spec fn wf(&self) -> bool {
        &&& self.position <= self.duration
        &&& self.completed ==> self.position == self.duration
    }

    /// A well-formed envelope has faded no more samples than its length,
    /// and has finished only once all of them were faded.
    pub proof fn lemma_wf_bounds(&self)
        requires
            self.wf(),
        ensures
            self.position() <= self.duration(),
            self.completed() ==> self.position() == self.duration(),
    {
    }

    /// Create an envelope for a stream's sample rate and channel count:
    /// `sample_rate * 30 * channels / 1000` samples long.
    pub fn new(sample_rate: u32, channels: u16) -> (r: Self)
        ensures
            r.wf(),
            r.position() <= r.duration(),
            r.position() == 0,
            r.duration() == fade_samples(sample_rate, channels),
            !r.completed(),
    {
        let per_channel: u64 = (sample_rate as u64) * 30;
        assert(per_channel == sample_rate * 30);
        assert(per_channel * (channels as u64) <= 0xffff_ffff * 30 * 0xffff) by (nonlinear_arith)
            requires
                per_channel <= 0xffff_ffff * 30,
                channels <= 0xffff,
        ;
        let total: u64 = per_channel * (channels as u64);
        let duration: usize = (#[verifier::truncate] ((total / 1000) as usize));
        StreamStartEnvelope { position: 0, duration, completed: false }
    }

    /// Take the next buffer of `buffer_len` samples: `None` once the fade
    /// has finished (the buffer is left alone); otherwise the span of the
    /// buffer to fade, which is as much of the buffer as the fade has left.
    pub fn next_span(&mut self, buffer_len: usize) -> (r: Option<FadeSpan>)
        requires
            old(self).wf(),
        ensures
            final(self).wf(),
            final(self).position() <= final(self).duration(),
            final(self).completed() ==> final(self).position() == final(self).duration(),
            final(self).duration() == old(self).duration(),
            final(self).position() as nat == step_position(
                old(self).position() as nat,
                old(self).duration() as nat,
                buffer_len as nat,
            ),
            old(self).completed() ==> r is None && *final(self) == *old(self),
            !old(self).completed() ==> ({
                let remaining = (old(self).duration() - old(self).position()) as usize;
                let count = if buffer_len < remaining {
                    buffer_len
                } else {
                    remaining
                };
                &&& r == Some(
                    FadeSpan {
                        start: old(self).position(),
                        count: count as usize,
                        duration: old(self).duration(),
                        active: old(self).position() + count < old(self).duration(),
                    },
                )
                &&& final(self).position() == old(self).position() + count
                &&& final(self).completed() == (final(self).position() >= final(self).duration())
            }),
    {
        if self.completed {
            return None;
        }
        let remaining = self.duration - self.position;
        let count = if buffer_len < remaining {
            buffer_len
        } else {
            remaining
        };
        let start = self.position;
        self.position = self.position + count;
        if self.position >= self.duration {
            self.completed = true;
        }
        Some(FadeSpan { start, count, duration: self.duration, active: !self.completed })
    }

    /// Whether the fade has finished.
    pub fn is_completed(&self) -> (r: bool)
        ensures
            r == self.completed(),
    {
        self.completed
    }
}

/// The fade position after a buffer of `len` samples: as much of the buffer
/// as the fade has left is faded.
pub open spec fn step_position(position: nat, duration: nat, len: nat) -> nat {
    if position + len < duration {
        position + len
    } else if position < duration {
        duration
    } else {
        position
    }
}

/// The fade position after buffers of the given lengths, from the start.
pub open spec fn position_after(duration: nat, lens: Seq<nat>) -> nat
    decreases lens.len(),
{
    if lens.len() == 0 {
        0
    } else {
        step_position(position_after(duration, lens.drop_last()), duration, lens.last())
    }
}

/// The total length of buffers.
pub open spec fn total_len(lens: Seq<nat>) -> nat
    decreases lens.len(),
{
    if lens.len() == 0 {
        0
    } else {
        total_len(lens.drop_last()) + lens.last()
    }
}

/// The fade covers each sample once and stops at its length: after buffers
/// totalling `n` samples, exactly `min(n, duration)` samples were faded, so
/// the fade has finished exactly when the buffers total at least its length.
pub proof fn lemma_fade_covers_prefix(duration: nat, lens: Seq<nat>)
    ensures
        position_after(duration, lens) == if total_len(lens) < duration {
            total_len(lens)
        } else {
            duration
        },
    decreases lens.len(),
{
    if lens.len() > 0 {
        lemma_fade_covers_prefix(duration, lens.drop_last());
    }
}

// ---------------------------------------------------------------------------
// Stream configuration
// ---------------------------------------------------------------------------

/// A device's current (default) output configuration.
#[derive(Debug, Clone, Copy, PartialEq, Eq, Structural)]
pub struct DefaultOutputConfig {
    /// Channel count
    pub channels: u16,
    /// The rate the device is running at (Hz)
    pub sample_rate: u32,
    /// Supported buffer sizes
    pub buffer_size: SupportedBufferSize,
    /// Sample format
    pub sample_format: SampleFormat,
}

/// Whether a configuration supports a sample rate.
pub open spec fn fits_rate(c: SupportedConfig, rate: u32) -> bool {
    c.min_sample_rate <= rate && rate <= c.max_sample_rate
}

/// Preference among sample formats: f32, then i32, then i16, then others.
pub open spec fn format_rank(f: SampleFormat) -> int {
    match f {
        SampleFormat::F32 => 3,
        SampleFormat::I32 => 2,
        SampleFormat::I16 => 1,
        _ => 0,
    }
}

/// A stereo configuration that supports the rate.
pub open spec fn stereo_fit(c: SupportedConfig, rate: u32) -> bool {
    fits_rate(c, rate) && c.channels == 2
}

/// Index `i` is the preferred stereo configuration: the last one of the
/// best-ranked format among the stereo configurations supporting the rate.
pub open spec fn best_stereo(cs: Seq<SupportedConfig>, rate: u32, i: int) -> bool {
    &&& 0 <= i < cs.len()
    &&& stereo_fit(cs[i], rate)
    &&& forall|j: int|
        0 <= j < cs.len() && stereo_fit(#[trigger] cs[j], rate) ==> format_rank(cs[j].sample_format)
            <= format_rank(cs[i].sample_format)
    &&& forall|j: int|
        i < j < cs.len() && stereo_fit(#[trigger] cs[j], rate) ==> format_rank(cs[j].sample_format)
            < format_rank(cs[i].sample_format)
}

/// Some stereo configuration supporting the rate has format `f`.
pub open spec fn stereo_with_format(cs: Seq<SupportedConfig>, rate: u32, f: SampleFormat) -> bool {
    exists|j: int| 0 <= j < cs.len() && stereo_fit(#[trigger] cs[j], rate) && cs[j].sample_format == f
}

/// The preferred stereo configuration is in 32-bit float when any stereo
/// configuration supporting the rate is, else in 32-bit integer when any
/// is, else in 16-bit integer when any is: f32 > i32 > i16 > the rest.
pub proof fn lemma_best_stereo_format(cs: Seq<SupportedConfig>, rate: u32, i: int)
    requires
        best_stereo(cs, rate, i),
    ensures
        stereo_with_format(cs, rate, SampleFormat::F32) ==> cs[i].sample_format == SampleFormat::F32,
        !stereo_with_format(cs, rate, SampleFormat::F32) && stereo_with_format(cs, rate, SampleFormat::I32)
            ==> cs[i].sample_format == SampleFormat::I32,
        !stereo_with_format(cs, rate, SampleFormat::F32) && !stereo_with_format(
            cs,
            rate,
            SampleFormat::I32,
        ) && stereo_with_format(cs, rate, SampleFormat::I16) ==> cs[i].sample_format
            == SampleFormat::I16,
{
    if stereo_with_format(cs, rate, SampleFormat::F32) {
        let j = choose|j: int| 0 <= j < cs.len() && stereo_fit(#[trigger] cs[j], rate) && cs[j].sample_format == SampleFormat::F32;
        assert(format_rank(cs[j].sample_format) <= format_rank(cs[i].sample_format));
    } else if stereo_with_format(cs, rate, SampleFormat::I32) {
        let j = choose|j: int| 0 <= j < cs.len() && stereo_fit(#[trigger] cs[j], rate) && cs[j].sample_format == SampleFormat::I32;
        assert(format_rank(cs[j].sample_format) <= format_rank(cs[i].sample_format));
        assert(cs[i].sample_format != SampleFormat::F32);
    } else if stereo_with_format(cs, rate, SampleFormat::I16) {
        let j = choose|j: int| 0 <= j < cs.len() && stereo_fit(#[trigger] cs[j], rate) && cs[j].sample_format == SampleFormat::I16;
        assert(format_rank(cs[j].sample_format) <= format_rank(cs[i].sample_format));
        assert(cs[i].sample_format != SampleFormat::F32);
        assert(cs[i].sample_format != SampleFormat::I32);
    }
}

/// Index `i` is the first configuration supporting the rate.
pub open spec fn first_fit(cs: Seq<SupportedConfig>, rate: u32, i: int) -> bool {
    &&& 0 <= i < cs.len()
    &&& fits_rate(cs[i], rate)
    &&& forall|j: int| 0 <= j < i ==> !fits_rate(#[trigger] cs[j], rate)
}

/// The configuration chosen for a stream at the device's rate: the
/// preferred stereo one, else the first one supporting the rate.
pub open spec fn stream_config_choice(cs: Seq<SupportedConfig>, rate: u32, i: int) -> bool {
    best_stereo(cs, rate, i) || ((forall|j: int| 0 <= j < cs.len() ==> !stereo_fit(#[trigger] cs[j], rate))
        && first_fit(cs, rate, i))
}

/// The buffer size requested for a stream: the first of 256, 512, 128,
/// 1024, 64 and 2048 frames within the supported range (else the range's
/// minimum, at least 16); 512 frames when the range is unknown.
pub open spec fn stream_buffer_size(b: SupportedBufferSize) -> BufferSize {
    match b {
        SupportedBufferSize::Range { min, max } => {
            let within = |s: u32| min <= s && s <= max;
            if within(256) {
                BufferSize::Fixed(256)
            } else if within(512) {
                BufferSize::Fixed(512)
            } else if within(128) {
                BufferSize::Fixed(128)
            } else if within(1024) {
                BufferSize::Fixed(1024)
            } else if within(64) {
                BufferSize::Fixed(64)
            } else if within(2048) {
                BufferSize::Fixed(2048)
            } else if min > 16 {
                BufferSize::Fixed(min)
            } else {
                BufferSize::Fixed(16)
            }
        },
        SupportedBufferSize::Unknown => BufferSize::Fixed(512),
    }
}

fn format_rank_exec(f: SampleFormat) -> (r: u8)
    ensures
        r == format_rank(f),
{
    match f {
        SampleFormat::F32 => 3,
        SampleFormat::I32 => 2,
        SampleFormat::I16 => 1,
        _ => 0,
    }
}

fn stream_buffer_size_exec(b: SupportedBufferSize) -> (r: BufferSize)
    ensures
        r == stream_buffer_size(b),
{
    match b {
        SupportedBufferSize::Range { min, max } => {
            if min <= 256 && 256 <= max {
                BufferSize::Fixed(256)
            } else if min <= 512 && 512 <= max {
                BufferSize::Fixed(512)
            } else if min <= 128 && 128 <= max {
                BufferSize::Fixed(128)
            } else if min <= 1024 && 1024 <= max {
                BufferSize::Fixed(1024)
            } else if min <= 64 && 64 <= max {
                BufferSize::Fixed(64)
            } else if min <= 2048 && 2048 <= max {
                BufferSize::Fixed(2048)
            } else if min > 16 {
                BufferSize::Fixed(min)
            } else {
                BufferSize::Fixed(16)
            }
        },
        SupportedBufferSize::Unknown => BufferSize::Fixed(512),
    }
}

/// Sample rate of the silent output used when no device exists.
pub const SILENT_SAMPLE_RATE: u32 = 44100;

/// Channel count of the silent output used when no device exists.
pub const SILENT_CHANNELS: u16 = 2;

/// The device name reported for the silent output.
pub open spec fn silent_device_name() -> Seq<char> {
    "Silent Mode (No Audio Devices)"@
}

/// Where a new stream plays.
#[derive(Debug)]
pub enum OutputChoice {
    /// The device at this position of the host's enumeration
    Named(usize),
    /// The host's default output device
    Default,
    /// No output device exists: run without a stream, at 44.1 kHz stereo
    Silent,
    /// No host for the backend ("Audio device not found")
    DeviceNotFound,
    /// The requested device could not be used (the device error's message)
    DeviceError(String),
}

/// Choose where a stream plays: without a host, no device is found; a
/// requested device is looked up by name, and a failed lookup is a device
/// error; without a request, the host's default device is used, and a
/// system with no default device runs silently.
pub fn choose_output(backend: AudioBackend, host: &Option<HostProbe>, device_name: &Option<String>) -> (r:
    OutputChoice)
    ensures
        match host {
            None => r is DeviceNotFound,
            Some(h) => match device_name {
                Some(name) => match h.devices {
                    Err(e) => r matches OutputChoice::DeviceError(m) && m@ == DeviceError::EnumerationFailed(
                        e,
                    ).spec_message(),
                    Ok(ds) => match r {
                        OutputChoice::Named(i) => i < ds@.len() && probe_named(ds@[i as int], name@)
                            && forall|j: int|
                            0 <= j < i ==> !probe_named(#[trigger] ds@[j], name@),
                        OutputChoice::DeviceError(m) => m@ == DeviceError::DeviceNotFound(
                            *name,
                        ).spec_message() && forall|j: int|
                            0 <= j < ds@.len() ==> !probe_named(#[trigger] ds@[j], name@),
                        _ => false,
                    },
                },
                None => if h.default_device is Some {
                    r is Default
                } else {
                    r is Silent
                },
            },
        },
{
    let h = match host {
        None => {
            return OutputChoice::DeviceNotFound;
        },
        Some(h) => h,
    };
    match device_name {
        Some(name) => match find_device_by_name(backend, host, name.as_str()) {
            Ok(i) => OutputChoice::Named(i),
            Err(e) => {
                let m = e.to_string();
                OutputChoice::DeviceError(m)
            },
        },
        None => if h.default_device.is_some() {
            OutputChoice::Default
        } else {
            OutputChoice::Silent
        },
    }
}

/// The device name reported for the silent output.
pub fn silent_output_name() -> (r: String)
    ensures
        r@ == silent_device_name(),
{
    String::from_str("Silent Mode (No Audio Devices)")
}

/// The stream opened at the device's current rate: with the chosen
/// supported configuration (see [`stream_config_choice`]) when one supports
/// that rate, else with the device's default configuration; the buffer size
/// is [`stream_buffer_size`] of the configuration used. A default
/// configuration that could not be read is reported as its error.
pub fn get_stream_config(
    default_config: &Result<DefaultOutputConfig, String>,
    supported: &Vec<SupportedConfig>,
) -> (r: Result<(StreamSettings, SampleFormat), String>)
    ensures
        match default_config {
            Err(e) => r matches Err(m) && m@ == e@,
            Ok(d) => r matches Ok((s, f)) && ((exists|i: int|
                #![trigger supported@[i]]
                stream_config_choice(supported@, d.sample_rate, i) && s == (StreamSettings {
                    channels: supported@[i].channels,
                    sample_rate: d.sample_rate,
                    buffer_size: stream_buffer_size(supported@[i].buffer_size),
                }) && f == supported@[i].sample_format) || ((forall|j: int|
                0 <= j < supported@.len() ==> !fits_rate(#[trigger] supported@[j], d.sample_rate))
                && s == (StreamSettings {
                channels: d.channels,
                sample_rate: d.sample_rate,
                buffer_size: stream_buffer_size(d.buffer_size),
            }) && f == d.sample_format)),
        },
        default_config matches Ok(d) ==> (stereo_with_format(supported@, d.sample_rate, SampleFormat::F32)
            ==> (r matches Ok((_, f)) && f == SampleFormat::F32)),
        default_config matches Ok(d) ==> (!stereo_with_format(
            supported@,
            d.sample_rate,
            SampleFormat::F32,
        ) && stereo_with_format(supported@, d.sample_rate, SampleFormat::I32) ==> (r matches Ok((_, f))
            && f == SampleFormat::I32)),
        default_config matches Ok(d) ==> (!stereo_with_format(
            supported@,
            d.sample_rate,
            SampleFormat::F32,
        ) && !stereo_with_format(supported@, d.sample_rate, SampleFormat::I32) && stereo_with_format(
            supported@,
            d.sample_rate,
            SampleFormat::I16,
        ) ==> (r matches Ok((_, f)) && f == SampleFormat::I16)),
{
    let d = match default_config {
        Err(e) => {
            return Err(e.clone());
        },
        Ok(d) => *d,
    };
    let rate = d.sample_rate;
    let mut best: Option<usize> = None;
    let mut best_rank: u8 = 0;
    let mut first: Option<usize> = None;
    let mut i: usize = 0;
    while i < supported.len()
        invariant
            i <= supported.len(),
            rate == d.sample_rate,
            match best {
                Some(k) => k < i && stereo_fit(supported@[k as int], rate) && best_rank == format_rank(
                    supported@[k as int].sample_format,
                ) && (forall|j: int|
                    0 <= j < i && stereo_fit(#[trigger] supported@[j], rate) ==> format_rank(
                        supported@[j].sample_format,
                    ) <= best_rank) && (forall|j: int|
                    k < j < i && stereo_fit(#[trigger] supported@[j], rate) ==> format_rank(
                        supported@[j].sample_format,
                    ) < best_rank),
                None => forall|j: int| 0 <= j < i ==> !stereo_fit(#[trigger] supported@[j], rate),
            },
            match first {
                Some(k) => first_fit(supported@, rate, k as int) && k < i,
                None => forall|j: int| 0 <= j < i ==> !fits_rate(#[trigger] supported@[j], rate),
            },
        decreases supported.len() - i,
    {
        let c = supported[i];
        let fits = c.min_sample_rate <= rate && rate <= c.max_sample_rate;
        if fits && first.is_none() {
            first = Some(i);
        }
        if fits && c.channels == 2 {
            let rank = format_rank_exec(c.sample_format);
            if best.is_none() || rank >= best_rank {
                best = Some(i);
                best_rank = rank;
            }
        }
        i = i + 1;
    }
    let chosen = match best {
        Some(k) => Some(k),
        None => first,
    };
    match chosen {
        Some(k) => {
            let c = supported[k];
            proof {
                assert(stream_config_choice(supported@, rate, k as int));
                if best is Some {
                    lemma_best_stereo_format(supported@, rate, k as int);
                } else {
                    assert(!stereo_with_format(supported@, rate, SampleFormat::F32));
                    assert(!stereo_with_format(supported@, rate, SampleFormat::I32));
                    assert(!stereo_with_format(supported@, rate, SampleFormat::I16));
                }
            }
            let settings = StreamSettings {
                channels: c.channels,
                sample_rate: rate,
                buffer_size: stream_buffer_size_exec(c.buffer_size),
            };
            Ok((settings, c.sample_format))
        },
        None => {
            proof {
                assert(!stereo_with_format(supported@, rate, SampleFormat::F32));
                assert(!stereo_with_format(supported@, rate, SampleFormat::I32));
                assert(!stereo_with_format(supported@, rate, SampleFormat::I16));
            }
            let settings = StreamSettings {
                channels: d.channels,
                sample_rate: rate,
                buffer_size: stream_buffer_size_exec(d.buffer_size),
            };
            Ok((settings, d.sample_format))
        },
    }
}

/// The buffer length (in frames) an output callback reports when it asks
/// for real-time scheduling: the fixed buffer size when the stream has one,
/// else the frames of the buffer the callback was handed.
pub fn callback_buffer_frames(buffer_size: BufferSize, data_len: usize, channels: u16) -> (r: u32)
    requires
        channels > 0,
    ensures
        r == match buffer_size {
            BufferSize::Fixed(f) => f,
            BufferSize::Default => ((data_len / (channels as usize)) as u32),
        },
{
    match buffer_size {
        BufferSize::Fixed(f) => f,
        BufferSize::Default => (#[verifier::truncate] ((data_len / (channels as usize)) as u32)),
    }
}

// ---------------------------------------------------------------------------
// Encoder delay
// ---------------------------------------------------------------------------

/// A bounded queue after one sample arrives: the sample is appended and, if
/// the queue grew past its capacity, its oldest sample is dropped.
pub open spec fn push_bounded<T>(q: Seq<T>, x: T, capacity: nat) -> Seq<T> {
    let p = q.push(x);
    if p.len() > capacity {
        p.drop_first()
    } else {
        p
    }
}

/// A bounded queue after a run of samples arrives.
pub open spec fn push_all_bounded<T>(q: Seq<T>, xs: Seq<T>, capacity: nat) -> Seq<T>
    decreases xs.len(),
{
    if xs.len() == 0 {
        q
    } else {
        push_bounded(push_all_bounded(q, xs.drop_last(), capacity), xs.last(), capacity)
    }
}

/// Drop the encoder delay: the first `skip_target - samples_skipped`
/// samples (as far as there are that many) are discarded, the rest are
/// appended to the output buffer, which keeps at most
/// `output_buffer_capacity` samples by dropping its oldest. Returns the
/// updated number of samples skipped.
pub fn skip_encoder_delay<T>(
    samples: Vec<T>,
    skip_target: usize,
    samples_skipped: usize,
    output_buffer: &mut VecDeque<T>,
    output_buffer_capacity: usize,
) -> (r: usize)
    ensures
        ({
            let to_skip = if samples_skipped < skip_target {
                (skip_target - samples_skipped) as nat
            } else {
                0nat
            };
            let dropped = if to_skip < samples@.len() {
                to_skip
            } else {
                samples@.len()
            };
            &&& r == samples_skipped + dropped
            &&& final(output_buffer)@ == push_all_bounded(
                old(output_buffer)@,
                samples@.skip(dropped as int),
                output_buffer_capacity as nat,
            )
        }),
{
    let ghost input = samples@;
    let ghost start = output_buffer@;
    let ghost skipped0 = samples_skipped;
    let mut skipped = samples_skipped;
    let mut rest = samples;
    let n = rest.len();
    let mut i: usize = 0;
    while rest.len() > 0
        invariant
            rest@.len() + i == n,
            n == input.len(),
            rest@ == input.skip(i as int),
            skipped == skipped0 + (if skipped0 < skip_target {
                if (skip_target - skipped0) < i {
                    (skip_target - skipped0) as int
                } else {
                    i as int
                }
            } else {
                0int
            }),
            ({
                let to_skip = if skipped0 < skip_target {
                    (skip_target - skipped0) as nat
                } else {
                    0nat
                };
                let dropped = if to_skip < i {
                    to_skip
                } else {
                    i as nat
                };
                output_buffer@ == push_all_bounded(
                    start,
                    input.subrange(dropped as int, i as int),
                    output_buffer_capacity as nat,
                )
            }),
        decreases rest@.len(),
    {
        let sample = rest.remove(0);
        proof {
            assert(sample == input[i as int]);
            assert(rest@ =~= input.skip(i + 1));
        }
        let ghost to_skip: nat = if skipped0 < skip_target {
            (skip_target - skipped0) as nat
        } else {
            0nat
        };
        let ghost dropped_before: nat = if to_skip < i {
            to_skip
        } else {
            i as nat
        };
        if skipped < skip_target {
            skipped = skipped + 1;
            proof {
                assert(to_skip > i);
                assert(input.subrange(dropped_before as int, i as int) =~= Seq::<T>::empty());
                assert(input.subrange((i + 1) as int, (i + 1) as int) =~= Seq::<T>::empty());
            }
        } else {
            let ghost before = output_buffer@;
            output_buffer.push_back(sample);
            if output_buffer.len() > output_buffer_capacity {
                output_buffer.pop_front();
            }
            proof {
                assert(to_skip <= i);
                let seg = input.subrange(dropped_before as int, (i + 1) as int);
                assert(seg.drop_last() =~= input.subrange(dropped_before as int, i as int));
                assert(seg.last() == sample);
                assert(output_buffer@ =~= push_bounded(before, sample, output_buffer_capacity as nat));
            }
        }
        i = i + 1;
    }
    proof {
        assert(input.subrange(0, n as int) =~= input);
        let to_skip: nat = if skipped0 < skip_target {
            (skip_target - skipped0) as nat
        } else {
            0nat
        };
        let dropped: nat = if to_skip < n {
            to_skip
        } else {
            n as nat
        };
        assert(input.subrange(dropped as int, n as int) =~= input.skip(dropped as int));
    }
    skipped
}

/// A buffer that starts within its capacity stays within it, and its newest
/// sample is the last one that arrived.
pub proof fn lemma_bounded_queue<T>(q: Seq<T>, xs: Seq<T>, capacity: nat)
    requires
        q.len() <= capacity,
    ensures
        push_all_bounded(q, xs, capacity).len() <= capacity,
        xs.len() > 0 && capacity > 0 ==> push_all_bounded(q, xs, capacity).last() == xs.last(),
    decreases xs.len(),
{
    if xs.len() > 0 {
        lemma_bounded_queue(q, xs.drop_last(), capacity);
    }
}

} // verus!
