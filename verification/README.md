# cpal_pipewire

The PipeWire audio backend's logic as a verified library.

- `src/registry.rs`: the registry of audio nodes announced by PipeWire, the
  default capture and playback nodes, and the laws that keep them consistent.
- `src/device.rs`: a device's identity, its supported and default
  configurations, and the stream plans that can be opened on it.
- `src/stream.rs`: stream names and properties (including DSD over PCM), the
  PipeWire sample format and audio parameters, buffer interpretation while a
  stream runs, and error descriptions.
- `src/properties.rs`: property dictionaries and their lookup.
- `src/decimal.rs`: decimal text of numbers.
- `src/config.rs`: configuration and error types.
- `app/`: the host itself, which talks to the PipeWire daemon: it connects,
  feeds registry events to the library, and creates and drives streams as the
  library's plans say.
