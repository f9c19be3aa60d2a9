# librewave-platform-linux

The Linux platform rules of LibreWave, a user-session daemon for Elgato Wave
audio hardware, written in Rust and verified with Verus.

- `src/` is the verified library: every rule is a function from plain values to
  plain values with a proved contract, and the promises that span several
  functions stand beside them as proof functions whose names begin with `law_`.
- `tests/` runs the library on concrete values.
- `app/` is ordinary Rust around the library: sysfs and procfs, the service
  commands, the daemon socket, libusb, ALSA and PipeWire. It performs what the
  library decides and hands the outcome back.

| Module | What it decides |
| --- | --- |
| `device`, `discovery` | which USB devices are admitted and which ALSA cards lie below them |
| `services` | what a status probe tells of PipeWire and WirePlumber |
| `usb`, `usb::connection` | which device and interface to open, claim and release, and what a probe means |
| `ipc`, `ipc::exchange`, `ipc::socket` | who may use the daemon socket, what a frame holds, and which stale socket may be removed |
| `audio_policy` | the files that keep the desktop off the physical card, and the ownership plan |
| `audio_lifecycle` | the capture-first start, its cleanup and its recovery |
| `audio_host::pcm`, `audio_host::sample` | PCM geometry and packed samples, on binary32 bit patterns |
| `audio_host::clock_bridge` | the FIFOs, observations and states between the capture, graph and playback clocks |
| `audio_host::worker` | the cycles of the capture and playback workers |
| `audio_host::transport` | the capture-clock transport, the order of its blocks and the System FIFO |
| `audio_host::alsa`, `audio_host::host`, `audio_host::endpoints` | which card and PCM to open, and when the host refuses |
| `audio_host::pipewire`, `audio_host::registry`, `audio_host::graph`, `audio_host::filter` | what the PipeWire registry shows, which links to make, and when a filter cycle fails |

The rate engine and the mixer compute in floating point and stay outside the
library, which takes what they return as arguments.

What the library takes from outside without proof: appending a character to a
`String`, decoding command output with `String::from_utf8_lossy`, and the `errno`
numbers of the `libc` crate. Each stands behind one small function that says
what is relied on. The traits that a host, a submitter or a playback writer
implements (`AudioHost`, `PlaybackPeriodSubmitter`, `TransportPlayback`) promise
only that a call is added, with its answer, to the record of calls.
