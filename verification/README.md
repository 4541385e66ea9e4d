# cameras

A cross-platform camera stack (capture controls, hardware decoding, and a
loopback preview server for Dioxus apps) whose deciding and computing parts
are verified with Verus.

## Layout

- `src/` — the verified library.
  - `annex_b` — reframing of length-prefixed H.264/H.265 access units and
    decoder configuration records into Annex B byte streams.
  - `decode` — NV12 geometry, plane splitting, and the decisions of the
    hardware decoder's input/output loop.
  - `controls` — the control model (`Controls`, `ControlCapabilities`,
    `ControlKind`), factory defaults, and reset.
  - `avfoundation` — what the macOS backend reports, refuses, and writes,
    and in which order.
  - `preview` — the preview wire format (24-byte header, HTTP framing) and
    request parsing.
  - `registry` — per-stream latest-frame slots shared between the pump and
    the preview server.
  - `pump`, `stream`, `stream_ids`, `channel` — the frame pump's loop
    decisions, the stream lifecycle, stream-id allocation, and the queue
    between worker threads and the UI task.
  - `frame`, `error`, `text` — frames, errors, and the text helpers the
    parsers are proved against.
- `tests/` — tests of the library.
- `app/` — the platform layer: worker threads, the TCP listener, Dioxus
  hooks and components, and the AVFoundation and Media Foundation backends.
  It performs the I/O; what it writes or sends, in which order, when its
  loops stop, and how failures are reported come from the library. The
  floating-point conversions and range checks of the macOS backend, and
  thread and timer plumbing, stay here.
