use soul_audio_desktop::decoder::{
    decoder_step, DecoderAction, DecoderEvent, DecoderState, PacketOutcome,
};

fn fresh() -> DecoderState {
    DecoderState { is_eof: false, resampler_skipped: 0, encoder_skipped: 0 }
}

#[test]
fn stop_and_closed_channel_end_the_thread() {
    assert_eq!(decoder_step(fresh(), DecoderEvent::Stop).1, DecoderAction::Exit);
    assert_eq!(decoder_step(fresh(), DecoderEvent::Disconnected).1, DecoderAction::Exit);
    assert_eq!(decoder_step(fresh(), DecoderEvent::NoCommand).1, DecoderAction::CheckBuffer);
}

#[test]
fn buffer_gate_waits_when_half_full_or_after_end() {
    let level = |buffered, capacity| DecoderEvent::BufferLevel { buffered, capacity };
    assert_eq!(decoder_step(fresh(), level(500, 1000)).1, DecoderAction::Sleep(10));
    assert_eq!(decoder_step(fresh(), level(499, 1000)).1, DecoderAction::ReadPacket);
    let ended = DecoderState { is_eof: true, ..fresh() };
    assert_eq!(decoder_step(ended, level(0, 1000)).1, DecoderAction::Sleep(50));
}

#[test]
fn end_of_file_finishes_the_stream_until_a_seek() {
    let (s, a) = decoder_step(
        fresh(),
        DecoderEvent::Packet { outcome: PacketOutcome::EndOfFile, flush_pending: true },
    );
    assert!(s.is_eof);
    assert_eq!(a, DecoderAction::FinishStream { flush_resampler: true });
    let (s, _) = decoder_step(s, DecoderEvent::SeekFailed);
    assert!(s.is_eof);
    let (s, a) = decoder_step(
        s,
        DecoderEvent::SeekDone { resampler_skipped: 7, encoder_skipped: 9 },
    );
    assert_eq!(s, DecoderState { is_eof: false, resampler_skipped: 7, encoder_skipped: 9 });
    assert_eq!(a, DecoderAction::CheckBuffer);
}

#[test]
fn packet_outcomes_decide_the_next_action() {
    let packet = |outcome| DecoderEvent::Packet { outcome, flush_pending: false };
    assert_eq!(decoder_step(fresh(), packet(PacketOutcome::ReadError)).1, DecoderAction::Sleep(10));
    assert_eq!(decoder_step(fresh(), packet(PacketOutcome::OtherTrack)).1, DecoderAction::Skip);
    assert_eq!(decoder_step(fresh(), packet(PacketOutcome::DecodeError)).1, DecoderAction::Skip);
    assert_eq!(decoder_step(fresh(), packet(PacketOutcome::Decoded)).1, DecoderAction::ProcessSamples);
}
