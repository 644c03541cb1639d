# soul_audio_desktop

Desktop audio output support, written in Verus. The functions under `src/`
carry contracts that the verifier proves, except the small wrappers marked
`#[verifier::external_body]`, each of which makes one call into std or an
outside crate (base64, lru, dsf-meta) and whose contract is trusted as
stated in its doc comment.

- `src/` — the verified library: audio backends and device listing, the
  current-device bookkeeping, device-change detection (polled lists, the
  PipeWire registry, device watchers and default-device listeners),
  exclusive-mode configuration selection, output choice (including the
  silent mode), stream configuration and the stream start fade, the
  device-switch state machine and playback settings, the audio thread's and
  the decoder thread's decisions (command events, event forwarding, error
  counting, decoding steps),
  DSD container cursors, audio source errors, lock metrics, and embedded
  artwork (selection, base64, an LRU cache).
- `tests/` — tests of the library on concrete values.
- `app/` — the platform side: cpal hosts, lofty tags, DSD header parsing and
  file reading, threads, timers, async monitoring and the floating-point
  sample processing, each handing plain values to the library.

Not carried here: the loops that drive these decisions against the
playback manager (the playback driver and its audio thread, the local
decoder thread, the DSD-to-PCM decode loop) and the native device monitors
(PipeWire, WinRT, CoreAudio). They need crates that are not available to
this build (soul-playback, soul-audio, rtrb, rubato, symphonia, pipewire,
windows, coreaudio) or, for cpal, do not build here, so they are in
neither `src/` nor `app/`; the decisions they take are in `src/` and can be
driven from any such loop.
