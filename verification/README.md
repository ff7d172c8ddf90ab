# tauri_recorder

Verified core of a Windows system-audio recorder (WASAPI loopback plus
microphone, saved as Ogg/Opus or WAV).

- `src/session.rs` — the recording session: start, stop, pause, resume,
  clear, status, save requests, and the capture loop's next step, with the
  laws that relate them.
- `src/opus_stream.rs` — Ogg/Opus export: encoder setup, pre-skip at 48 kHz,
  OpusHead/OpusTags packets, the 20 ms frame plan with granule positions,
  and the packet stream handed to the Ogg page writer.
- `src/ogg_writer.rs` — the `ogg` crate's `PacketWriter`, writing pages into
  memory, behind trusted wrappers.
- `src/mixing.rs` — which input samples feed each mixed output sample.
- `src/capture.rs` — the endpoint a capture stream opens.
- `src/text.rs` — decimal rendering and the recorder's messages.
- `app/` — the Tauri commands, the WASAPI capture, the Opus encoder, float
  sample processing (mixing sums, resampling, WAV output) and file I/O.
