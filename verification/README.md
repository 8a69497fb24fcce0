# camilla_engine

Supervision of an audio engine. The engine runs one pipeline of a capture, a
processing and a playback thread per device group. This crate decides when the
pipelines start, how messages of the device threads and commands of a controller
are answered, what becomes of the active configuration, and when the engine quits.
The code is verified with [Verus](https://github.com/verus-lang/verus).

## Layout

| Path | Contents |
| --- | --- |
| `src/engine_pipeline.rs` | the pipeline of one group: wiring, startup barrier, commands, stopping |
| `src/session.rs` | one processing session over all pipelines |
| `src/engine.rs` | the engine between sessions, exit codes |
| `src/laws.rs` | what holds of every run of a session and of the engine |
| `src/messages.rs`, `src/config.rs` | messages, stop reasons, configurations |
| `src/channels.rs` | trusted contracts of `crossbeam_channel` |
| `src/shared.rs` | shared state, with trusted contracts of `parking_lot` and `std::sync::Barrier` |
| `app/` | threads, the endless loops, devices and the rest of the program |
| `tests/` | tests of the library with the real channels and locks |

## How a session works

`Session::turn` waits for one event and answers it. What concerns the pipelines
happens at once. The rest of the answer is a list of `Effect`s, in order, and
perhaps the outcome of the session. `Session::next_host_task` carries out the
effects on shared state and hands the others to the host: stopping threads,
comparing configurations, setting volumes.

Speeds, volumes and samples are floating-point numbers. The library carries them
as bit patterns and never computes with them.

## What is observed

Other threads send, receive and store. Contracts therefore say of which channel or
cell something was observed, in which order a queue gives it out, and what follows
from it, but not what is observed.
