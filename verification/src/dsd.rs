//! DSD containers (DSF and DSDIFF): stream parameters and the read cursors
//! that turn a container's audio data into frames of one byte per channel.
//!
//! Parsing headers and reading file bytes is done by the caller; the
//! cursors decide what to read next, where a seek lands and which bytes
//! make up each frame.

use vstd::prelude::*;

use std::time::Duration;

use crate::text::{decimal, str_eq, u64_to_decimal};

verus! {

/// DSD container error.
#[derive(Debug, Clone, PartialEq, Eq)]
pub enum ContainerError {
    /// I/O failure (its message)
    Io(String),
    /// DSF header could not be parsed
    DsfParse(String),
    /// DSDIFF header could not be parsed
    DsdiffParse(String),
    /// Not a DSD container this library reads
    Unsupported(String),
}

impl ContainerError {
    /// The message of an error.
    pub open spec fn spec_message(&self) -> Seq<char> {
        match self {
            ContainerError::Io(m) => "IO error: "@ + m@,
            ContainerError::DsfParse(m) => "DSF parse error: "@ + m@,
            ContainerError::DsdiffParse(m) => "DSDIFF parse error: "@ + m@,
            ContainerError::Unsupported(m) => "Unsupported: "@ + m@,
        }
    }

    /// The error's message.
    pub fn to_string(&self) -> (r: String)
        ensures
            r@ == self.spec_message(),
    {
        match self {
            ContainerError::Io(m) => String::from_str("IO error: ").concat(m.as_str()),
            ContainerError::DsfParse(m) => String::from_str("DSF parse error: ").concat(m.as_str()),
            ContainerError::DsdiffParse(m) => String::from_str("DSDIFF parse error: ").concat(
                m.as_str(),
            ),
            ContainerError::Unsupported(m) => String::from_str("Unsupported: ").concat(m.as_str()),
        }
    }
}

/// A name for what `Duration::new` returns: the duration of `secs` seconds
/// and `nanos` nanoseconds.
pub uninterp spec fn duration_value(secs: u64, nanos: u32) -> Duration;

/// `Duration::new(secs, nanos)`, for nanoseconds below one second (so that
/// no carry into the seconds can overflow).
#[verifier::external_body]
fn duration_new(secs: u64, nanos: u32) -> (r: Duration)
    requires
        nanos < 1_000_000_000,
    ensures
        r == duration_value(secs, nanos),
{
    Duration::new(secs, nanos)
}

/// Extracted metadata from a DSD container.
#[derive(Debug)]
pub struct DsdMeta {
    /// DSD bitstream sample rate (e.g. 2,822,400 for DSD64).
    pub dsd_rate: u32,
    /// PCM output rate after 8:1 decimation (= dsd_rate / 8).
    pub pcm_rate: u32,
    /// Number of channels.
    pub channels: u16,
    /// `true` = LSB-first (DSF default), `false` = MSB-first (DSDIFF default).
    pub lsbf: bool,
    /// Total playback duration.
    pub duration: Duration,
    /// Human-readable DSD format string, e.g. "DSD64".
    pub dsd_format: String,
}

/// The name of a DSD rate: DSD64, DSD128, DSD256, DSD512, or `DSD@{rate}Hz`.
pub open spec fn dsd_format_name(rate: u32) -> Seq<char> {
    if rate == 2_822_400 {
        "DSD64"@
    } else if rate == 5_644_800 {
        "DSD128"@
    } else if rate == 11_289_600 {
        "DSD256"@
    } else if rate == 22_579_200 {
        "DSD512"@
    } else {
        "DSD@"@ + decimal(rate as nat) + "Hz"@
    }
}

/// The length of `samples` samples at `rate` samples per second, in
/// nanoseconds, rounded to the nearest nanosecond (halves up).
pub open spec fn duration_total_nanos(samples: u64, rate: u32) -> int {
    (2 * samples * 1_000_000_000 + rate) / (2 * rate)
}

impl DsdMeta {
    /// Derive the PCM output rate, duration and format name from the DSD
    /// bitstream rate and the number of samples per channel.
    pub fn from_dsd_rate(dsd_rate: u32, channels: u16, lsbf: bool, sample_count: u64) -> (r: Self)
        requires
            dsd_rate > 0,
        ensures
            r.dsd_rate == dsd_rate,
            r.pcm_rate == dsd_rate / 8,
            r.channels == channels,
            r.lsbf == lsbf,
            r.duration == duration_value(
                (duration_total_nanos(sample_count, dsd_rate) / 1_000_000_000) as u64,
                (duration_total_nanos(sample_count, dsd_rate) % 1_000_000_000) as u32,
            ),
            r.dsd_format@ == dsd_format_name(dsd_rate),
    {
        let samples = sample_count as u128;
        let rate = dsd_rate as u128;
        let giga: u128 = 1_000_000_000;
        assert(2 * samples * giga <= 2 * 0xffff_ffff_ffff_ffffu128 * giga) by (nonlinear_arith)
            requires
                samples <= 0xffff_ffff_ffff_ffffu128,
                giga == 1_000_000_000,
        ;
        let total = (2 * samples * giga + rate) / (2 * rate);
        assert(total <= samples * giga) by (nonlinear_arith)
            requires
                rate >= 1,
                total == (2 * samples * giga + rate) / (2 * rate),
                giga == 1_000_000_000,
        {
            assert(2 * samples * giga + rate < (samples * giga + 1) * (2 * rate));
        };
        assert(total / giga <= samples) by (nonlinear_arith)
            requires
                total <= samples * giga,
                giga == 1_000_000_000,
        ;
        let secs = (total / giga) as u64;
        let nanos = (total % giga) as u32;
        let duration = duration_new(secs, nanos);
        let dsd_format = if dsd_rate == 2_822_400 {
            String::from_str("DSD64")
        } else if dsd_rate == 5_644_800 {
            String::from_str("DSD128")
        } else if dsd_rate == 11_289_600 {
            String::from_str("DSD256")
        } else if dsd_rate == 22_579_200 {
            String::from_str("DSD512")
        } else {
            let n = u64_to_decimal(dsd_rate as u64);
            String::from_str("DSD@").concat(n.as_str()).concat("Hz")
        };
        DsdMeta { dsd_rate, pcm_rate: dsd_rate / 8, channels, lsbf, duration, dsd_format }
    }
}

// ---------------------------------------------------------------------------
// Container kinds
// ---------------------------------------------------------------------------

/// A name for what the `Path::extension` of a path's text gives, read as
/// text.
pub uninterp spec fn path_extension(path: Seq<char>) -> Option<Seq<char>>;

/// A name for the `Debug` rendering of an optional text (as in
/// `unknown DSD extension: Some("mp3")`).
pub uninterp spec fn debug_option_text(ext: Option<Seq<char>>) -> Seq<char>;

/// The optional text, viewed.
pub open spec fn option_text(o: Option<String>) -> Option<Seq<char>> {
    match o {
        Some(s) => Some(s@),
        None => None,
    }
}

/// `Path::extension` of a path given as text, when the extension is valid
/// UTF-8.
#[verifier::external_body]
fn file_extension(path: &str) -> (r: Option<String>)
    ensures
        option_text(r) == path_extension(path@),
{
    std::path::Path::new(path).extension().and_then(|e| e.to_str()).map(|e| e.to_string())
}

/// `format!("{:?}", ext)` of an optional extension.
#[verifier::external_body]
fn debug_extension(ext: &Option<String>) -> (r: String)
    ensures
        r@ == debug_option_text(option_text(*ext)),
{
    format!("{:?}", ext.as_deref())
}

/// The two DSD container formats.
#[derive(Debug, Clone, Copy, PartialEq, Eq, Structural)]
pub enum DsdContainerKind {
    /// DSF (`.dsf`)
    Dsf,
    /// DSDIFF (`.dff`, `.dsdiff`)
    Dsdiff,
}

/// The container kind an extension names.
pub open spec fn kind_of_extension(ext: Option<Seq<char>>) -> Option<DsdContainerKind> {
    match ext {
        Some(e) => if e == "dsf"@ {
            Some(DsdContainerKind::Dsf)
        } else if e == "dff"@ || e == "dsdiff"@ {
            Some(DsdContainerKind::Dsdiff)
        } else {
            None
        },
        None => None,
    }
}

/// The container kind for a file extension; other extensions are refused
/// as unsupported.
pub fn container_kind_for_extension(ext: &Option<String>) -> (r: Result<DsdContainerKind, ContainerError>)
    ensures
        match kind_of_extension(option_text(*ext)) {
            Some(k) => r == Ok::<DsdContainerKind, ContainerError>(k),
            None => r matches Err(ContainerError::Unsupported(m)) && m@ == "unknown DSD extension: "@
                + debug_option_text(option_text(*ext)),
        },
{
    match ext {
        Some(e) => {
            if str_eq(e.as_str(), "dsf") {
                return Ok(DsdContainerKind::Dsf);
            }
            if str_eq(e.as_str(), "dff") || str_eq(e.as_str(), "dsdiff") {
                return Ok(DsdContainerKind::Dsdiff);
            }
        },
        None => {},
    }
    let shown = debug_extension(ext);
    Err(ContainerError::Unsupported(String::from_str("unknown DSD extension: ").concat(shown.as_str())))
}

/// The container kind for a file path, by its extension.
pub fn container_kind_for_path(path: &str) -> (r: Result<DsdContainerKind, ContainerError>)
    ensures
        match kind_of_extension(path_extension(path@)) {
            Some(k) => r == Ok::<DsdContainerKind, ContainerError>(k),
            None => r matches Err(ContainerError::Unsupported(m)) && m@ == "unknown DSD extension: "@
                + debug_option_text(path_extension(path@)),
        },
{
    let ext = file_extension(path);
    container_kind_for_extension(&ext)
}

/// Whether a path names a DSD file (extension `dsf`, `dff` or `dsdiff`).
pub fn is_dsd_path(path: &str) -> (r: bool)
    ensures
        r == (kind_of_extension(path_extension(path@)) is Some),
{
    let ext = file_extension(path);
    match container_kind_for_extension(&ext) {
        Ok(_) => true,
        Err(_) => false,
    }
}

// ---------------------------------------------------------------------------
// DSF cursor
// ---------------------------------------------------------------------------

/// DSF block size per channel, fixed by the DSF specification.
pub const DSF_BLOCK_SIZE: usize = 4096;

/// Byte used to pad a short final block (DSD silence).
pub const DSD_SILENCE_BYTE: u8 = 0x69;

/// `dsf_meta::DSF_SAMPLE_DATA_OFFSET`: where DSF sample data starts, which
/// is byte 92 (a 28-byte DSD chunk, a 52-byte fmt chunk and the 12-byte data
/// chunk header).
#[verifier::external_body]
fn dsf_sample_data_offset() -> (r: u64)
    ensures
        r == 92,
{
    dsf_meta::DSF_SAMPLE_DATA_OFFSET
}

/// Read cursor over DSF audio data.
///
/// DSF audio data is block-interleaved: a block holds 4096 bytes of channel
/// 0, then 4096 bytes of channel 1, and so on. The cursor deinterleaves it,
/// yielding one byte per channel per frame.
pub struct DsfCursor {
    block_buf: Vec<u8>,
    block_pos: usize,
    blocks_done: u64,
    total_samples: u64,
    samples_done: u64,
    channels: usize,
}

/// A block as loaded: the bytes read, padded with silence to a full block.
pub open spec fn padded_block(data: Seq<u8>, len: nat) -> Seq<u8> {
    Seq::new(len, |i: int| if i < data.len() { data[i] } else { DSD_SILENCE_BYTE })
}

/// A frame read from a block at a position: channel `c`'s byte is at
/// `c * 4096 + pos`.
pub open spec fn frame_of_block(frame: Seq<u8>, block: Seq<u8>, channels: usize, pos: usize) -> bool {
    &&& frame.len() == channels
    &&& forall|c: int| 0 <= c < frame.len() ==> #[trigger] frame[c] == block[c * DSF_BLOCK_SIZE + pos]
}

impl DsfCursor {
    /// The cursor is consistent: the block buffer holds one block per
    /// channel and the position is within a block (or just past it).
    pub closed spec fn wf(&self) -> bool {
        &&& self.block_buf@.len() == DSF_BLOCK_SIZE * self.channels
        &&& self.block_pos <= DSF_BLOCK_SIZE
    }

    /// Samples per channel in the stream.
    pub closed spec fn total(&self) -> u64 {
        self.total_samples
    }

    /// Samples per channel read (or skipped by a seek) so far.
    pub closed spec fn done(&self) -> u64 {
        self.samples_done
    }

    /// Channel count.
    pub closed spec fn channel_count(&self) -> usize {
        self.channels
    }

    /// Position within the current block.
    pub closed spec fn pos(&self) -> usize {
        self.block_pos
    }

    /// Blocks loaded (or skipped by a seek) so far.
    pub closed spec fn blocks(&self) -> u64 {
        self.blocks_done
    }

    /// The current block's bytes.
    pub closed spec fn block(&self) -> Seq<u8> {
        self.block_buf@
    }

    /// A cursor at the start of the audio data, with no block loaded yet.
    pub fn new(channels: u16, total_samples: u64) -> (r: Self)
        ensures
            r.wf(),
            r.total() == total_samples,
            r.done() == 0,
            r.channel_count() == channels,
            r.pos() == DSF_BLOCK_SIZE,
            r.blocks() == 0,
    {
        let n: usize = DSF_BLOCK_SIZE * (channels as usize);
        let mut block_buf: Vec<u8> = Vec::new();
        let mut i: usize = 0;
        while i < n
            invariant
                i <= n,
                block_buf@.len() == i,
            decreases n - i,
        {
            block_buf.push(0);
            i = i + 1;
        }
        DsfCursor {
            block_buf,
            block_pos: DSF_BLOCK_SIZE,
            blocks_done: 0,
            total_samples,
            samples_done: 0,
            channels: channels as usize,
        }
    }

    /// Whether every sample was read.
    pub fn is_finished(&self) -> (r: bool)
        ensures
            r == (self.done() >= self.total()),
    {
        self.samples_done >= self.total_samples
    }

    /// Whether the next frame needs a new block read first.
    pub fn needs_block(&self) -> (r: bool)
        ensures
            r == (self.done() < self.total() && self.pos() >= DSF_BLOCK_SIZE),
    {
        self.samples_done < self.total_samples && self.block_pos >= DSF_BLOCK_SIZE
    }

    /// How many bytes a block read asks for.
    pub fn block_len(&self) -> (r: usize)
        requires
            self.wf(),
        ensures
            r == DSF_BLOCK_SIZE * self.channel_count(),
    {
        self.block_buf.len()
    }

    /// Load the bytes of the next block (a short read is padded with DSD
    /// silence) and start reading it.
    pub fn load_block(&mut self, data: &[u8])
        requires
            old(self).wf(),
            data@.len() <= DSF_BLOCK_SIZE * old(self).channel_count(),
            old(self).blocks() < u64::MAX,
        ensures
            final(self).wf(),
            final(self).block() == padded_block(data@, (DSF_BLOCK_SIZE * old(self).channel_count()) as nat),
            final(self).pos() == 0,
            final(self).blocks() == old(self).blocks() + 1,
            final(self).done() == old(self).done(),
            final(self).total() == old(self).total(),
            final(self).channel_count() == old(self).channel_count(),
    {
        let n = self.block_buf.len();
        let mut i: usize = 0;
        while i < n
            invariant
                i <= n,
                n == self.block_buf@.len(),
                n == DSF_BLOCK_SIZE * self.channels,
                self.channels == old(self).channels,
                self.blocks_done == old(self).blocks_done,
                self.samples_done == old(self).samples_done,
                self.total_samples == old(self).total_samples,
                data@.len() <= n,
                forall|j: int| 0 <= j < i ==> self.block_buf@[j] == padded_block(data@, n as nat)[j],
            decreases n - i,
        {
            let b = if i < data.len() {
                data[i]
            } else {
                DSD_SILENCE_BYTE
            };
            self.block_buf.set(i, b);
            i = i + 1;
        }
        proof {
            assert(self.block_buf@ =~= padded_block(data@, n as nat));
        }
        self.block_pos = 0;
        self.blocks_done = self.blocks_done + 1;
    }

    /// Take the next frame: one byte per channel, channel `c` from position
    /// `c * 4096 + pos` of the block. `None` at the end of the stream.
    pub fn take_frame(&mut self) -> (r: Option<Vec<u8>>)
        requires
            old(self).wf(),
            old(self).done() < old(self).total() ==> old(self).pos() < DSF_BLOCK_SIZE,
        ensures
            final(self).wf(),
            final(self).total() == old(self).total(),
            final(self).channel_count() == old(self).channel_count(),
            final(self).block() == old(self).block(),
            final(self).blocks() == old(self).blocks(),
            match r {
                None => old(self).done() >= old(self).total() && final(self).done() == old(
                    self,
                ).done() && final(self).pos() == old(self).pos(),
                Some(frame) => old(self).done() < old(self).total() && frame_of_block(
                    frame@,
                    old(self).block(),
                    old(self).channel_count(),
                    old(self).pos(),
                ) && final(self).done() == old(self).done() + 1 && final(self).pos() == old(
                    self,
                ).pos() + 1,
            },
    {
        if self.samples_done >= self.total_samples {
            return None;
        }
        let mut frame: Vec<u8> = Vec::new();
        let mut ch: usize = 0;
        while ch < self.channels
            invariant
                self.wf(),
                self.block_pos < DSF_BLOCK_SIZE,
                ch <= self.channels,
                frame@.len() == ch,
                forall|c: int|
                    0 <= c < ch ==> #[trigger] frame@[c] == self.block_buf@[c * DSF_BLOCK_SIZE
                        + self.block_pos],
            decreases self.channels - ch,
        {
            assert(ch * DSF_BLOCK_SIZE + self.block_pos < DSF_BLOCK_SIZE * self.channels) by (nonlinear_arith)
                requires
                    ch < self.channels,
                    self.block_pos < DSF_BLOCK_SIZE,
            ;
            assert(self.block_buf@.len() == self.block_buf.len());
            frame.push(self.block_buf[ch * DSF_BLOCK_SIZE + self.block_pos]);
            ch = ch + 1;
        }
        self.block_pos = self.block_pos + 1;
        self.samples_done = self.samples_done + 1;
        Some(frame)
    }

    /// Seek to the block boundary at or before `target_sample`: returns the
    /// byte offset in the file to read from; the next frame loads that block.
    pub fn seek(&mut self, target_sample: u64) -> (r: u64)
        requires
            old(self).wf(),
            92 + (target_sample / 4096) * (4096 * old(self).channel_count()) <= u64::MAX,
        ensures
            final(self).wf(),
            r == 92 + (target_sample / 4096) * (4096 * old(self).channel_count()),
            final(self).pos() == DSF_BLOCK_SIZE,
            final(self).blocks() == target_sample / 4096,
            final(self).done() == (target_sample / 4096) * 4096,
            final(self).total() == old(self).total(),
            final(self).channel_count() == old(self).channel_count(),
            final(self).block() == old(self).block(),
    {
        let block_idx = target_sample / 4096;
        let channels = self.channels as u64;
        assert(block_idx * 4096 <= target_sample) by (nonlinear_arith)
            requires
                block_idx == target_sample / 4096,
        ;
        assert(4096 * channels == self.block_buf.len());
        assert(block_idx * (4096 * channels) <= u64::MAX);
        let byte_offset = dsf_sample_data_offset() + block_idx * (4096 * channels);
        self.block_pos = DSF_BLOCK_SIZE;
        self.blocks_done = block_idx;
        self.samples_done = block_idx * 4096;
        byte_offset
    }
}

// ---------------------------------------------------------------------------
// DSDIFF cursor
// ---------------------------------------------------------------------------

/// Read cursor over DSDIFF audio data.
///
/// DSDIFF audio data is byte-interleaved: `[ch0][ch1][ch0][ch1]...`, one
/// byte per channel per frame.
pub struct DsdiffCursor {
    audio_offset: u64,
    audio_length: u64,
    bytes_consumed: u64,
    channels: u64,
}

/// The frame a seek lands on: the target, clamped to the number of frames.
pub open spec fn dsdiff_seek_sample(length: u64, channels: u64, target_sample: u64) -> u64 {
    let max_samples = (length / channels) as u64;
    if target_sample < max_samples {
        target_sample
    } else {
        max_samples
    }
}

impl DsdiffCursor {
    /// The cursor is consistent: channels exist and no more than one frame
    /// past the end of the audio data was consumed.
    pub closed spec fn wf(&self) -> bool {
        &&& self.channels > 0
        &&& self.bytes_consumed <= self.audio_length + self.channels
    }

    /// Bytes of audio data consumed so far.
    pub closed spec fn consumed(&self) -> u64 {
        self.bytes_consumed
    }

    /// Bytes of audio data in the stream.
    pub closed spec fn length(&self) -> u64 {
        self.audio_length
    }

    /// Where the audio data starts in the file.
    pub closed spec fn offset(&self) -> u64 {
        self.audio_offset
    }

    /// Channel count.
    pub closed spec fn channel_count(&self) -> u64 {
        self.channels
    }

    /// A cursor at the start of the audio data.
    pub fn new(audio_offset: u64, audio_length: u64, channels: u16) -> (r: Self)
        requires
            channels > 0,
        ensures
            r.wf(),
            r.consumed() == 0,
            r.length() == audio_length,
            r.offset() == audio_offset,
            r.channel_count() == channels,
    {
        DsdiffCursor { audio_offset, audio_length, bytes_consumed: 0, channels: channels as u64 }
    }

    /// Samples per channel in the stream.
    pub fn total_samples(&self) -> (r: u64)
        requires
            self.wf(),
        ensures
            r == self.length() / self.channel_count(),
    {
        self.audio_length / self.channels
    }

    /// Whether every frame was read.
    pub fn is_finished(&self) -> (r: bool)
        ensures
            r == (self.consumed() >= self.length()),
    {
        self.bytes_consumed >= self.audio_length
    }

    /// Bytes of audio data consumed so far.
    pub fn bytes_consumed(&self) -> (r: u64)
        ensures
            r == self.consumed(),
    {
        self.bytes_consumed
    }

    /// Record that one frame (one byte per channel) was read.
    pub fn frame_read(&mut self)
        requires
            old(self).wf(),
            old(self).consumed() < old(self).length(),
            old(self).consumed() + old(self).channel_count() <= u64::MAX,
        ensures
            final(self).wf(),
            final(self).consumed() == old(self).consumed() + old(self).channel_count(),
            final(self).length() == old(self).length(),
            final(self).offset() == old(self).offset(),
            final(self).channel_count() == old(self).channel_count(),
    {
        self.bytes_consumed = self.bytes_consumed + self.channels;
    }

    /// Seek to the frame at `target_sample`, clamped to the end of the
    /// stream: returns the byte offset in the file to read from (which must
    /// fit in 64 bits).
    pub fn seek(&mut self, target_sample: u64) -> (r: u64)
        requires
            old(self).wf(),
            old(self).offset() + dsdiff_seek_sample(old(self).length(), old(self).channel_count(), target_sample)
                * old(self).channel_count() <= u64::MAX,
        ensures
            final(self).wf(),
            ({
                let sample = dsdiff_seek_sample(old(self).length(), old(self).channel_count(), target_sample);
                &&& final(self).consumed() == sample * old(self).channel_count()
                &&& r == old(self).offset() + sample * old(self).channel_count()
            }),
            final(self).length() == old(self).length(),
            final(self).offset() == old(self).offset(),
            final(self).channel_count() == old(self).channel_count(),
    {
        let max_samples = self.audio_length / self.channels;
        let sample = if target_sample < max_samples {
            target_sample
        } else {
            max_samples
        };
        assert(sample * self.channels <= self.audio_length) by (nonlinear_arith)
            requires
                sample <= max_samples,
                max_samples == self.audio_length / self.channels,
                self.channels > 0,
        ;
        let consumed = sample * self.channels;
        self.bytes_consumed = consumed;
        self.audio_offset + consumed
    }
}

} // verus!
