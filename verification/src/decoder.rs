//! Decisions of a local file's decoder thread.
//!
//! The decoder thread reads packets of an audio file ahead of playback,
//! keeping the shared output buffer about half full, obeying seek and stop
//! commands, and marking the end of the stream. Reading, decoding,
//! resampling and sleeping are done by the caller; what it does next is
//! decided here from what it observed.

use vstd::prelude::*;

verus! {

/// Sleep when the output buffer is at least half full, in milliseconds.
pub const BUFFER_FULL_SLEEP_MS: u64 = 10;

/// Sleep after the end of the file was reached, in milliseconds.
pub const END_OF_FILE_SLEEP_MS: u64 = 50;

/// Sleep after a packet could not be read, in milliseconds.
pub const READ_ERROR_SLEEP_MS: u64 = 10;

/// What the decoder thread keeps between steps.
#[derive(Debug, Clone, Copy, PartialEq, Eq, Structural)]
pub struct DecoderState {
    /// Whether the end of the file was reached
    pub is_eof: bool,
    /// Resampler settling samples already skipped
    pub resampler_skipped: usize,
    /// Encoder delay samples already skipped
    pub encoder_skipped: usize,
}

/// What one packet read gave.
#[derive(Debug, Clone, Copy, PartialEq, Eq, Structural)]
pub enum PacketOutcome {
    /// The file ended
    EndOfFile,
    /// The packet could not be read
    ReadError,
    /// The packet belongs to another track of the file
    OtherTrack,
    /// The packet could not be decoded, or its samples not converted
    DecodeError,
    /// The packet was decoded to samples
    Decoded,
}

/// What the decoder thread observed.
#[derive(Debug, Clone, Copy, PartialEq, Eq, Structural)]
pub enum DecoderEvent {
    /// No command was waiting
    NoCommand,
    /// A stop command arrived
    Stop,
    /// The command channel was closed
    Disconnected,
    /// A seek command was carried out; the skip counters restart at these
    /// values
    SeekDone {
        /// Resampler settling samples counted as skipped
        resampler_skipped: usize,
        /// Encoder delay samples counted as skipped
        encoder_skipped: usize,
    },
    /// A seek command failed
    SeekFailed,
    /// The output buffer holds `buffered` samples of `capacity`
    BufferLevel {
        /// Samples in the output buffer
        buffered: usize,
        /// Capacity of the output buffer
        capacity: usize,
    },
    /// A packet read gave this outcome; `flush_pending` says whether
    /// resampling is on and input samples wait for the resampler
    Packet {
        /// What the read gave
        outcome: PacketOutcome,
        /// Whether resampler input is pending
        flush_pending: bool,
    },
}

/// What the decoder thread does next.
#[derive(Debug, Clone, Copy, PartialEq, Eq, Structural)]
pub enum DecoderAction {
    /// Leave the thread
    Exit,
    /// Go on to check the output buffer
    CheckBuffer,
    /// Sleep this many milliseconds, then start the next round
    Sleep(u64),
    /// Read the next packet
    ReadPacket,
    /// Mark the end of the stream, flushing the resampler first when asked
    FinishStream {
        /// Whether the resampler is flushed
        flush_resampler: bool,
    },
    /// Drop the packet and start the next round
    Skip,
    /// Hand the decoded samples on
    ProcessSamples,
}

/// The decoder thread's transition: commands first (stop and a closed
/// channel end the thread; a seek restarts the skip counters and clears
/// the end of file), then the buffer gate (wait while the buffer is at
/// least half full, or once the file ended), then the packet read.
pub open spec fn decoder_transition(s: DecoderState, e: DecoderEvent) -> (DecoderState, DecoderAction) {
    match e {
        DecoderEvent::Stop | DecoderEvent::Disconnected => (s, DecoderAction::Exit),
        DecoderEvent::SeekDone { resampler_skipped, encoder_skipped } => (
            DecoderState { is_eof: false, resampler_skipped, encoder_skipped },
            DecoderAction::CheckBuffer,
        ),
        DecoderEvent::NoCommand | DecoderEvent::SeekFailed => (s, DecoderAction::CheckBuffer),
        DecoderEvent::BufferLevel { buffered, capacity } => if buffered >= capacity / 2 {
            (s, DecoderAction::Sleep(BUFFER_FULL_SLEEP_MS))
        } else if s.is_eof {
            (s, DecoderAction::Sleep(END_OF_FILE_SLEEP_MS))
        } else {
            (s, DecoderAction::ReadPacket)
        },
        DecoderEvent::Packet { outcome, flush_pending } => match outcome {
            PacketOutcome::EndOfFile => (
                DecoderState { is_eof: true, ..s },
                DecoderAction::FinishStream { flush_resampler: flush_pending },
            ),
            PacketOutcome::ReadError => (s, DecoderAction::Sleep(READ_ERROR_SLEEP_MS)),
            PacketOutcome::OtherTrack | PacketOutcome::DecodeError => (s, DecoderAction::Skip),
            PacketOutcome::Decoded => (s, DecoderAction::ProcessSamples),
        },
    }
}

/// Take one step of the decoder thread (see [`decoder_transition`]).
pub fn decoder_step(s: DecoderState, e: DecoderEvent) -> (r: (DecoderState, DecoderAction))
    ensures
        r == decoder_transition(s, e),
{
    match e {
        DecoderEvent::Stop | DecoderEvent::Disconnected => (s, DecoderAction::Exit),
        DecoderEvent::SeekDone { resampler_skipped, encoder_skipped } => (
            DecoderState { is_eof: false, resampler_skipped, encoder_skipped },
            DecoderAction::CheckBuffer,
        ),
        DecoderEvent::NoCommand | DecoderEvent::SeekFailed => (s, DecoderAction::CheckBuffer),
        DecoderEvent::BufferLevel { buffered, capacity } => {
            if buffered >= capacity / 2 {
                (s, DecoderAction::Sleep(BUFFER_FULL_SLEEP_MS))
            } else if s.is_eof {
                (s, DecoderAction::Sleep(END_OF_FILE_SLEEP_MS))
            } else {
                (s, DecoderAction::ReadPacket)
            }
        },
        DecoderEvent::Packet { outcome, flush_pending } => match outcome {
            PacketOutcome::EndOfFile => (
                DecoderState {
                    is_eof: true,
                    resampler_skipped: s.resampler_skipped,
                    encoder_skipped: s.encoder_skipped,
                },
                DecoderAction::FinishStream { flush_resampler: flush_pending },
            ),
            PacketOutcome::ReadError => (s, DecoderAction::Sleep(READ_ERROR_SLEEP_MS)),
            PacketOutcome::OtherTrack | PacketOutcome::DecodeError => (s, DecoderAction::Skip),
            PacketOutcome::Decoded => (s, DecoderAction::ProcessSamples),
        },
    }
}

/// Once the file ended, no packet is read again until a seek: the end of
/// file stays through every event but a successful seek, and the buffer
/// gate then never asks for a read; a seek clears it.
pub proof fn lemma_no_read_after_end(s: DecoderState, e: DecoderEvent)
    requires
        s.is_eof,
    ensures
        !(e is SeekDone) ==> decoder_transition(s, e).0.is_eof,
        decoder_transition(s, e).1 != DecoderAction::ReadPacket,
        e is SeekDone ==> !decoder_transition(s, e).0.is_eof,
{
}

/// Stop commands and a closed channel always end the thread, whatever the
/// state.
pub proof fn lemma_stop_exits(s: DecoderState)
    ensures
        decoder_transition(s, DecoderEvent::Stop).1 == DecoderAction::Exit,
        decoder_transition(s, DecoderEvent::Disconnected).1 == DecoderAction::Exit,
{
}

} // verus!
